//! Paths on a remote host, and how they are written into a shell script.

use crate::text::{chars_of, slice, trim, trim_text};
use vstd::prelude::*;
use vstd::string::StringExecFns;

verus! {

/// Whether `c` ends a line or a C string.
pub open spec fn breaks_command(c: char) -> bool {
    c == '\0' || c == '\n' || c == '\r'
}

/// Whether some character of `path` ends a line or a C string.
pub open spec fn has_breaking_char(path: Seq<char>) -> bool {
    exists|i: int| 0 <= i < path.len() && breaks_command(#[trigger] path[i])
}

/// Whether the two dots at `i` are a whole part of `path`.
pub open spec fn parent_part_at(path: Seq<char>, i: int) -> bool {
    &&& 0 <= i && i + 2 <= path.len()
    &&& path[i] == '.' && path[i + 1] == '.'
    &&& i == 0 || path[i - 1] == '/'
    &&& i + 2 == path.len() || path[i + 2] == '/'
}

/// Whether a part of `path`, between slashes, is `..`.
pub open spec fn has_parent_part(path: Seq<char>) -> bool {
    exists|i: int| parent_part_at(path, i)
}

/// Whether `path` starts at the root.
pub open spec fn is_absolute(path: Seq<char>) -> bool {
    path.len() > 0 && path[0] == '/'
}

/// Whether `path` starts in the home directory.
pub open spec fn is_in_home(path: Seq<char>) -> bool {
    path.len() > 1 && path[0] == '~' && path[1] == '/'
}

/// `s` with each single quote written as the end of the quoted part, a quote behind a
/// backslash, and the start of the next quoted part.
pub open spec fn quoted_body(s: Seq<char>) -> Seq<char>
    decreases s.len(),
{
    if s.len() == 0 {
        Seq::empty()
    } else if s.last() == '\'' {
        quoted_body(s.drop_last()) + seq!['\'', '\\', '\'', '\'']
    } else {
        quoted_body(s.drop_last()).push(s.last())
    }
}

/// `s` as one word of a POSIX shell.
pub open spec fn quoted(s: Seq<char>) -> Seq<char> {
    seq!['\''] + quoted_body(s) + seq!['\'']
}

/// A path that may start in the home directory, as one word of a POSIX shell.
pub open spec fn home_word(path: Seq<char>) -> Seq<char> {
    if is_in_home(path) {
        "\"${HOME}\"/"@ + quoted(path.skip(2))
    } else {
        quoted(path)
    }
}

/// Why a path is refused.
#[derive(Debug, Clone, Copy, PartialEq, Eq, Structural)]
pub enum SshRemoteHomePathError {
    /// It is neither absolute nor in the home directory, or breaks the command.
    Invalid,
    /// It goes up by `..`.
    ParentTraversal,
}

/// Why `path` is refused as a path that may start in the home directory, if it is.
pub open spec fn home_path_error(path: Seq<char>) -> Option<SshRemoteHomePathError> {
    if !(is_absolute(path) || is_in_home(path)) || has_breaking_char(path) {
        Some(SshRemoteHomePathError::Invalid)
    } else if has_parent_part(path) {
        Some(SshRemoteHomePathError::ParentTraversal)
    } else {
        None
    }
}

/// Why `path` is refused as an absolute path, if it is.
pub open spec fn remote_path_error(path: Seq<char>) -> Option<Seq<char>> {
    if !is_absolute(path) || has_breaking_char(path) {
        Some("ssh_remote_path_invalid"@)
    } else if has_parent_part(path) {
        Some("ssh_remote_path_parent_forbidden"@)
    } else {
        None
    }
}

fn breaks_any_command(path: &[char]) -> (r: bool)
    ensures
        r == has_breaking_char(path@),
{
    for i in 0..path.len()
        invariant
            forall|j: int| 0 <= j < i ==> !breaks_command(#[trigger] path@[j]),
    {
        let c = path[i];
        if c == '\0' || c == '\n' || c == '\r' {
            assert(breaks_command(path@[i as int]));
            return true;
        }
    }
    false
}

fn goes_up(path: &[char]) -> (r: bool)
    ensures
        r == has_parent_part(path@),
{
    let n = path.len();
    for i in 0..n
        invariant
            n == path@.len(),
            forall|j: int| 0 <= j < i ==> !parent_part_at(path@, j),
    {
        if n - i >= 2 && path[i] == '.' && path[i + 1] == '.' && (i == 0 || path[i - 1] == '/') && (
        n - i == 2 || path[i + 2] == '/') {
            assert(parent_part_at(path@, i as int));
            return true;
        }
        assert(!parent_part_at(path@, i as int));
    }
    false
}

/// The path without the white space around it, where it is an absolute path that does
/// not go up by `..` and fits into a command line.
pub fn validate_remote_path(path: &str) -> (result: Result<&str, String>)
    ensures
        match remote_path_error(trim(path@)) {
            Some(error) => result matches Err(e) && e@ == error,
            None => result matches Ok(p) && p@ == trim(path@),
        },
{
    let path = trim_text(path);
    let chars = chars_of(path);
    if chars.len() == 0 || chars[0] != '/' || breaks_any_command(chars.as_slice()) {
        return Err("ssh_remote_path_invalid".to_owned());
    }
    if goes_up(chars.as_slice()) {
        return Err("ssh_remote_path_parent_forbidden".to_owned());
    }
    Ok(path)
}

/// Accepts an absolute path, or one in the home directory, that does not go up by `..`
/// and fits into a command line.
pub fn validate_remote_home_path(path: &str) -> (result: Result<(), SshRemoteHomePathError>)
    ensures
        match home_path_error(path@) {
            Some(error) => result == Err::<(), SshRemoteHomePathError>(error),
            None => result is Ok,
        },
{
    let chars = chars_of(path);
    let rooted = chars.len() > 0 && chars[0] == '/';
    let in_home = chars.len() > 1 && chars[0] == '~' && chars[1] == '/';
    if !(rooted || in_home) || breaks_any_command(chars.as_slice()) {
        return Err(SshRemoteHomePathError::Invalid);
    }
    if goes_up(chars.as_slice()) {
        return Err(SshRemoteHomePathError::ParentTraversal);
    }
    Ok(())
}

fn quote_chars(chars: &[char]) -> (word: String)
    ensures
        word@ == quoted(chars@),
{
    let mut word = String::new();
    word.push('\'');
    for i in 0..chars.len()
        invariant
            word@ == seq!['\''] + quoted_body(chars@.take(i as int)),
    {
        let c = chars[i];
        let ghost next = chars@.take(i + 1);
        assert(next.drop_last() =~= chars@.take(i as int));
        assert(next.last() == c);
        if c == '\'' {
            word.push('\'');
            word.push('\\');
            word.push('\'');
            word.push('\'');
        } else {
            word.push(c);
        }
        assert(word@ =~= seq!['\''] + quoted_body(next));
    }
    assert(chars@.take(chars@.len() as int) =~= chars@);
    word.push('\'');
    assert(word@ =~= quoted(chars@));
    word
}

/// `text` as one word of a POSIX shell.
pub fn posix_quote(text: &str) -> (word: String)
    ensures
        word@ == quoted(text@),
{
    let chars = chars_of(text);
    quote_chars(chars.as_slice())
}

/// A path that may start in the home directory, as one word of a POSIX shell.
pub fn format_remote_home_path(path: &str) -> (word: String)
    ensures
        word@ == home_word(path@),
{
    let chars = chars_of(path);
    if chars.len() > 1 && chars[0] == '~' && chars[1] == '/' {
        let mut word = String::new();
        word.append("\"${HOME}\"/");
        let rest = slice(chars.as_slice(), 2, chars.len());
        assert(rest@ =~= path@.skip(2));
        word.append(quote_chars(rest).as_str());
        assert(word@ =~= home_word(path@));
        word
    } else {
        quote_chars(chars.as_slice())
    }
}

/// What a POSIX shell reads from a word made of single-quoted parts and characters
/// behind a backslash; `inside` tells whether a quoted part is open.
pub open spec fn shell_reads(word: Seq<char>, inside: bool) -> Option<Seq<char>>
    decreases word.len(),
{
    if word.len() == 0 {
        if inside {
            None
        } else {
            Some(Seq::empty())
        }
    } else if inside {
        if word[0] == '\'' {
            shell_reads(word.drop_first(), false)
        } else {
            prepended(word[0], shell_reads(word.drop_first(), true))
        }
    } else if word[0] == '\'' {
        shell_reads(word.drop_first(), true)
    } else if word[0] == '\\' && word.len() > 1 {
        prepended(word[1], shell_reads(word.skip(2), false))
    } else {
        None
    }
}

/// `c` in front of a text, if there is one.
pub open spec fn prepended(c: char, text: Option<Seq<char>>) -> Option<Seq<char>> {
    match text {
        Some(t) => Some(seq![c] + t),
        None => None,
    }
}

proof fn lemma_quoted_body_add(a: Seq<char>, b: Seq<char>)
    ensures
        quoted_body(a + b) == quoted_body(a) + quoted_body(b),
    decreases b.len(),
{
    if b.len() == 0 {
        assert(a + b =~= a);
        assert(quoted_body(a) + quoted_body(b) =~= quoted_body(a));
    } else {
        lemma_quoted_body_add(a, b.drop_last());
        assert((a + b).drop_last() =~= a + b.drop_last());
        assert((a + b).last() == b.last());
        assert(quoted_body(a + b) =~= quoted_body(a) + quoted_body(b));
    }
}

proof fn lemma_shell_reads_body(s: Seq<char>)
    ensures
        shell_reads(quoted_body(s) + seq!['\''], true) == Some(s),
    decreases s.len(),
{
    if s.len() == 0 {
        let word = quoted_body(s) + seq!['\''];
        assert(word =~= seq!['\'']);
        assert(word.drop_first() =~= Seq::<char>::empty());
        assert(s =~= Seq::<char>::empty());
        assert(shell_reads(Seq::<char>::empty(), false) == Some(s));
    } else {
        let head = seq![s[0]];
        let tail = s.drop_first();
        lemma_shell_reads_body(tail);
        lemma_quoted_body_add(head, tail);
        assert(s =~= head + tail);
        let rest = quoted_body(tail) + seq!['\''];
        let word = quoted_body(s) + seq!['\''];
        assert(head.drop_last() =~= Seq::<char>::empty());
        assert(quoted_body(Seq::<char>::empty()) =~= Seq::<char>::empty());
        if s[0] == '\'' {
            assert(quoted_body(head) =~= seq!['\'', '\\', '\'', '\'']);
            assert(word =~= seq!['\'', '\\', '\'', '\''] + rest);
            let w1 = word.drop_first();
            assert(w1 =~= seq!['\\', '\'', '\''] + rest);
            let w2 = w1.skip(2);
            assert(w2 =~= seq!['\''] + rest);
            assert(w2.drop_first() =~= rest);
            assert(shell_reads(w2, false) == Some(tail));
            assert(shell_reads(w1, false) == Some(seq!['\''] + tail));
        } else {
            assert(quoted_body(head) =~= head);
            assert(word =~= head + rest);
            assert(word.drop_first() =~= rest);
        }
    }
}

/// A shell reads back from a quoted text that text and nothing else, whatever it holds.
pub proof fn law_shell_reads_quoted_text(s: Seq<char>)
    ensures
        shell_reads(quoted(s), false) == Some(s),
{
    lemma_shell_reads_body(s);
    assert(quoted(s).drop_first() =~= quoted_body(s) + seq!['\'']);
}

/// An accepted absolute path is also accepted as a path that may start in the home
/// directory, and is then written as a quoted word.
pub proof fn law_absolute_paths_are_home_paths(path: Seq<char>)
    requires
        remote_path_error(path) is None,
    ensures
        home_path_error(path) is None,
        home_word(path) == quoted(path),
{
}

/// Whether `path` holds a character that ends a line or a C string.
pub open spec fn breaks_off(path: Seq<char>) -> bool {
    path.contains('\0') || path.contains('\n') || path.contains('\r')
}

/// Whether `path` is made of `front`, two dots and `back`, where the dots are a whole part
/// between slashes.
pub open spec fn goes_up_after(path: Seq<char>, front: Seq<char>, back: Seq<char>) -> bool {
    &&& path == front + seq!['.', '.'] + back
    &&& front.len() == 0 || front.last() == '/'
    &&& back.len() == 0 || back[0] == '/'
}

proof fn lemma_breaks_off(path: Seq<char>)
    ensures
        has_breaking_char(path) <==> breaks_off(path),
{
    if has_breaking_char(path) {
        let i = choose|i: int| 0 <= i < path.len() && breaks_command(#[trigger] path[i]);
        assert(path.contains(path[i]));
    }
    if path.contains('\0') {
        let i = choose|i: int| 0 <= i < path.len() && path[i] == '\0';
        assert(breaks_command(path[i]));
    }
    if path.contains('\n') {
        let i = choose|i: int| 0 <= i < path.len() && path[i] == '\n';
        assert(breaks_command(path[i]));
    }
    if path.contains('\r') {
        let i = choose|i: int| 0 <= i < path.len() && path[i] == '\r';
        assert(breaks_command(path[i]));
    }
}

proof fn lemma_goes_up(path: Seq<char>)
    ensures
        has_parent_part(path) <==> exists|front: Seq<char>, back: Seq<char>| #[trigger]
            goes_up_after(path, front, back),
{
    if has_parent_part(path) {
        let i = choose|i: int| parent_part_at(path, i);
        let front = path.take(i);
        let back = path.skip(i + 2);
        assert(path =~= front + seq!['.', '.'] + back);
        assert(goes_up_after(path, front, back));
    }
    if exists|front: Seq<char>, back: Seq<char>| #[trigger] goes_up_after(path, front, back) {
        let (front, back) = choose|front: Seq<char>, back: Seq<char>| #[trigger]
            goes_up_after(path, front, back);
        let i = front.len() as int;
        assert(path[i] == '.');
        assert(path[i + 1] == '.');
        if i > 0 {
            assert(path[i - 1] == front.last());
        }
        if back.len() > 0 {
            assert(path[i + 2] == back[0]);
        }
        assert(parent_part_at(path, i));
    }
}

/// A path is accepted exactly where, without the white space around it, it starts with a
/// slash, breaks off nowhere and goes nowhere up. It is handed back so. The error tells
/// whether it goes up.
pub proof fn law_absolute_path_is_accepted(path: &str, result: Result<&str, String>)
    requires
        call_ensures(validate_remote_path, (path,), result),
    ensures
        ({
            let p = trim(path@);
            let fits = p.len() > 0 && p[0] == '/' && !breaks_off(p);
            let up = exists|front: Seq<char>, back: Seq<char>| #[trigger]
                goes_up_after(p, front, back);
            &&& result is Ok <==> fits && !up
            &&& result matches Ok(accepted) ==> accepted@ == p
            &&& result matches Err(e) ==> e@ == if fits {
                "ssh_remote_path_parent_forbidden"@
            } else {
                "ssh_remote_path_invalid"@
            }
        }),
{
    lemma_breaks_off(trim(path@));
    lemma_goes_up(trim(path@));
}

/// A path of the agent is accepted exactly where it starts with a slash, or with a tilde and
/// a slash, breaks off nowhere and goes nowhere up. The error tells whether it goes up.
pub proof fn law_home_path_is_accepted(path: &str, result: Result<(), SshRemoteHomePathError>)
    requires
        call_ensures(validate_remote_home_path, (path,), result),
    ensures
        ({
            let p = path@;
            let rooted = p.len() > 0 && p[0] == '/';
            let in_home = p.len() > 1 && p[0] == '~' && p[1] == '/';
            let fits = (rooted || in_home) && !breaks_off(p);
            let up = exists|front: Seq<char>, back: Seq<char>| #[trigger]
                goes_up_after(p, front, back);
            &&& result is Ok <==> fits && !up
            &&& result matches Err(e) ==> (e is ParentTraversal <==> fits)
        }),
{
    lemma_breaks_off(path@);
    lemma_goes_up(path@);
}

/// A text becomes a word from which a shell reads that text. A path in the home directory
/// becomes the home directory, a slash and such a word of the rest; any other path such a
/// word of itself.
pub proof fn law_words_are_read_as_the_path(path: &str, word: String, home: String)
    requires
        call_ensures(posix_quote, (path,), word),
        call_ensures(format_remote_home_path, (path,), home),
    ensures
        shell_reads(word@, false) == Some(path@),
        ({
            let in_home = path@.len() > 1 && path@[0] == '~' && path@[1] == '/';
            let front = "\"${HOME}\"/"@;
            &&& !in_home ==> home@ == word@
            &&& in_home ==> home@.len() >= front.len() && home@.take(front.len() as int) == front
                && shell_reads(home@.skip(front.len() as int), false) == Some(path@.skip(2))
        }),
{
    law_shell_reads_quoted_text(path@);
    law_shell_reads_quoted_text(path@.skip(2));
    let front = "\"${HOME}\"/"@;
    if is_in_home(path@) {
        assert(home@.take(front.len() as int) =~= front);
        assert(home@.skip(front.len() as int) =~= quoted(path@.skip(2)));
    }
}

} // verus!
