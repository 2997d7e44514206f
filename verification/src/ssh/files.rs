//! Looking at directories of a remote host.

use super::auth::{first_nonblank_line, single_line};
use super::connect::{
    ensure_non_interactive, limited_timeout, timeout_seconds, CommandOutput, RemotePlan,
    SshConnectionSpec,
};
use super::path::{posix_quote, quoted, remote_path_error, validate_remote_path};
use crate::encoding::{lossy_text, lowercase, lowercase_text, utf8_lossy, utf8_text};
use crate::text::{
    chars_of, same_text, slice, string_of, trim, trim_end_char, trim_end_chars, trim_text,
};
use vstd::prelude::*;
use vstd::string::StringExecFns;
use vstd::utf8::{decode_utf8, valid_utf8};

verus! {

/// What is known of a path.
#[derive(Debug, Clone, Copy, PartialEq, Eq, Structural)]
pub struct SshPathCheckResult {
    pub exists: bool,
    pub accessible: bool,
    pub git_repository: bool,
}

/// A directory in a directory.
#[derive(Debug)]
pub struct SshDirectoryEntry {
    pub name: String,
    pub path: String,
}

/// A directory in a directory, as text.
#[verifier::ext_equal]
pub struct Entry {
    pub name: Seq<char>,
    pub path: Seq<char>,
}

impl View for SshDirectoryEntry {
    type V = Entry;

    open spec fn view(&self) -> Entry {
        Entry { name: self.name@, path: self.path@ }
    }
}

/// The directories, as text.
pub open spec fn entry_views(entries: Seq<SshDirectoryEntry>) -> Seq<Entry> {
    entries.map_values(|entry: SshDirectoryEntry| entry@)
}

/// The script that looks at the path that `word` writes.
pub open spec fn check_script(word: Seq<char>) -> Seq<char> {
    "if [ ! -d "@ + word + " ]; then printf 'missing'; elif [ ! -x "@ + word
        + " ]; then printf 'inaccessible'; elif git -C "@ + word
        + " rev-parse --is-inside-work-tree >/dev/null 2>&1; then printf 'git'; else printf 'ok'; fi"@
}

/// The script that lists the directories in the one that `word` writes.
pub open spec fn list_script(word: Seq<char>) -> Seq<char> {
    "find -- "@ + word + " -mindepth 1 -maxdepth 1 -type d -print0"@
}

/// Why a host is not asked about `path`, if it is not: the way to reach it is invalid, it
/// asks someone to answer a prompt, or the path is refused.
pub open spec fn plan_error(
    validated: Result<(), String>,
    spec: SshConnectionSpec,
    path: Seq<char>,
) -> Option<Seq<char>> {
    if validated is Err {
        Some(validated->Err_0@)
    } else if spec.is_interactive() {
        Some("ssh_interactive_auth_required"@)
    } else {
        remote_path_error(trim(path))
    }
}

fn checked_word(
    validated: Result<(), String>,
    spec: &SshConnectionSpec,
    path: &str,
) -> (result: Result<String, String>)
    ensures
        match plan_error(validated, *spec, path@) {
            Some(error) => result matches Err(e) && e@ == error,
            None => result matches Ok(word) && word@ == quoted(trim(path@)),
        },
{
    if let Err(error) = validated {
        return Err(error);
    }
    if let Err(error) = ensure_non_interactive(spec) {
        return Err(error);
    }
    match validate_remote_path(path) {
        Err(error) => Err(error),
        Ok(path) => Ok(posix_quote(path)),
    }
}

/// How to look at `path`. `validated` tells whether the way to reach the host is valid.
pub fn ssh_check_path(
    validated: Result<(), String>,
    spec: &SshConnectionSpec,
    path: &str,
) -> (result: Result<RemotePlan, String>)
    ensures
        match plan_error(validated, *spec, path@) {
            Some(error) => result matches Err(e) && e@ == error,
            None => result matches Ok(plan) && plan.script@ == check_script(quoted(trim(path@)))
                && plan.timeout_sec == limited_timeout(spec.connect_timeout_sec, 5, 305),
        },
{
    match checked_word(validated, spec, path) {
        Err(error) => Err(error),
        Ok(word) => {
            let mut script = "if [ ! -d ".to_owned();
            script.append(word.as_str());
            script.append(" ]; then printf 'missing'; elif [ ! -x ");
            script.append(word.as_str());
            script.append(" ]; then printf 'inaccessible'; elif git -C ");
            script.append(word.as_str());
            script.append(
                " rev-parse --is-inside-work-tree >/dev/null 2>&1; then printf 'git'; else printf 'ok'; fi",
            );
            Ok(
                RemotePlan {
                    script,
                    timeout_sec: timeout_seconds(spec.connect_timeout_sec, 5, 305),
                },
            )
        },
    }
}

/// What the answer of the script says of the path.
pub open spec fn checked(answer: Seq<char>) -> SshPathCheckResult {
    if answer == "git"@ {
        SshPathCheckResult { exists: true, accessible: true, git_repository: true }
    } else if answer == "ok"@ {
        SshPathCheckResult { exists: true, accessible: true, git_repository: false }
    } else if answer == "inaccessible"@ {
        SshPathCheckResult { exists: true, accessible: false, git_repository: false }
    } else {
        SshPathCheckResult { exists: false, accessible: false, git_repository: false }
    }
}

/// What the answer of the script says of the path.
pub fn path_check_answer(answer: &str) -> (result: SshPathCheckResult)
    ensures
        result == checked(answer@),
{
    if same_text(answer, "git") {
        SshPathCheckResult { exists: true, accessible: true, git_repository: true }
    } else if same_text(answer, "ok") {
        SshPathCheckResult { exists: true, accessible: true, git_repository: false }
    } else if same_text(answer, "inaccessible") {
        SshPathCheckResult { exists: true, accessible: false, git_repository: false }
    } else {
        SshPathCheckResult { exists: false, accessible: false, git_repository: false }
    }
}

/// What is known of the path once the script ended.
pub fn path_check_result(output: &CommandOutput) -> (result: Result<SshPathCheckResult, String>)
    ensures
        if output.success {
            &&& result == Ok::<SshPathCheckResult, String>(
                checked(trim(utf8_lossy(output.stdout@))),
            )
            &&& valid_utf8(output.stdout@) ==> result == Ok::<SshPathCheckResult, String>(
                checked(trim(decode_utf8(output.stdout@))),
            )
        } else {
            result matches Err(e) && e@ == first_nonblank_line(utf8_lossy(output.stderr@))
        },
{
    if !output.success {
        return Err(single_line(output.stderr.as_slice()));
    }
    let text = lossy_text(output.stdout.as_slice());
    Ok(path_check_answer(trim_text(text.as_str())))
}

/// How to list the directories in `path`. `validated` tells whether the way to reach the
/// host is valid.
pub fn ssh_list_directories(
    validated: Result<(), String>,
    spec: &SshConnectionSpec,
    path: &str,
) -> (result: Result<RemotePlan, String>)
    ensures
        match plan_error(validated, *spec, path@) {
            Some(error) => result matches Err(e) && e@ == error,
            None => result matches Ok(plan) && plan.script@ == list_script(quoted(trim(path@)))
                && plan.timeout_sec == limited_timeout(spec.connect_timeout_sec, 10, 310),
        },
{
    match checked_word(validated, spec, path) {
        Err(error) => Err(error),
        Ok(word) => {
            let mut script = "find -- ".to_owned();
            script.append(word.as_str());
            script.append(" -mindepth 1 -maxdepth 1 -type d -print0");
            Ok(
                RemotePlan {
                    script,
                    timeout_sec: timeout_seconds(spec.connect_timeout_sec, 10, 310),
                },
            )
        },
    }
}

/// What follows the last slash of `path`.
pub open spec fn last_part(path: Seq<char>) -> Seq<char>
    decreases path.len(),
{
    if path.len() == 0 || path.last() == '/' {
        Seq::empty()
    } else {
        last_part(path.drop_last()).push(path.last())
    }
}

/// The directory at `path`, without the slashes at its end.
pub open spec fn entry_at(path: Seq<char>) -> Entry {
    let normalized = trim_end_char(path, '/');
    Entry { name: last_part(normalized), path: normalized }
}

/// The first zero byte of `bytes`, or its length.
pub open spec fn first_zero(bytes: Seq<u8>) -> int
    decreases bytes.len(),
{
    if bytes.len() == 0 || bytes[0] == 0 {
        0
    } else {
        1 + first_zero(bytes.drop_first())
    }
}

/// The directories whose paths stand in `bytes`, with zero bytes between them. Paths that
/// are empty or no valid text are left out.
pub open spec fn listed_entries(bytes: Seq<u8>) -> Seq<Entry>
    decreases bytes.len(),
{
    if bytes.len() == 0 {
        Seq::empty()
    } else {
        let end = first_zero(bytes);
        let path = bytes.take(end);
        let here = if path.len() > 0 && valid_utf8(path) {
            seq![entry_at(decode_utf8(path))]
        } else {
            Seq::empty()
        };
        if 0 <= end < bytes.len() {
            here + listed_entries(bytes.skip(end + 1))
        } else {
            here
        }
    }
}

/// Whether `a` comes before `b`, or is `b`, in the order of code points.
pub open spec fn text_le(a: Seq<char>, b: Seq<char>) -> bool
    decreases a.len(),
{
    if a.len() == 0 {
        true
    } else if b.len() == 0 {
        false
    } else if a[0] == b[0] {
        text_le(a.drop_first(), b.drop_first())
    } else {
        a[0] < b[0]
    }
}

/// A directory with what it is ordered by.
#[verifier::ext_equal]
pub struct Keyed {
    pub key: Seq<char>,
    pub entry: Entry,
}

/// The directories with what they are ordered by, as text.
pub open spec fn keyed_views(keyed: Seq<(String, SshDirectoryEntry)>) -> Seq<Keyed> {
    keyed.map_values(|k: (String, SshDirectoryEntry)| Keyed { key: k.0@, entry: k.1@ })
}

/// The directories with what a listing is ordered by: their names in lower case.
pub open spec fn keyed_by_name(entries: Seq<Entry>) -> Seq<Keyed> {
    entries.map_values(|entry: Entry| Keyed { key: lowercase(entry.name), entry })
}

/// Those with this key, in order.
pub open spec fn with_key(keyed: Seq<Keyed>, key: Seq<char>) -> Seq<Keyed> {
    keyed.filter(|k: Keyed| k.key == key)
}

/// Whether `sorted` holds what `keyed` holds, ordered by key, and with those that share
/// a key in the order of `keyed`.
pub open spec fn is_sorted_from(keyed: Seq<Keyed>, sorted: Seq<Keyed>) -> bool {
    &&& forall|i: int, j: int|
        0 <= i <= j < sorted.len() ==> text_le((#[trigger] sorted[i]).key, (#[trigger] sorted[j]).key)
    &&& sorted.len() == keyed.len()
    &&& forall|key: Seq<char>| #[trigger] with_key(sorted, key) == with_key(keyed, key)
}

fn zero_position(bytes: &[u8], from: usize) -> (end: usize)
    requires
        from <= bytes@.len(),
    ensures
        from <= end <= bytes@.len(),
        end - from == first_zero(bytes@.skip(from as int)),
{
    let mut end: usize = from;
    while end < bytes.len() && bytes[end] != 0
        invariant
            from <= end <= bytes@.len(),
            first_zero(bytes@.skip(from as int)) == (end - from) + first_zero(
                bytes@.skip(end as int),
            ),
        decreases bytes@.len() - end,
    {
        assert(bytes@.skip(end as int)[0] == bytes@[end as int]);
        assert(bytes@.skip(end as int).drop_first() =~= bytes@.skip(end + 1));
        end = end + 1;
    }
    end
}

fn directory_entry(path: &str) -> (entry: SshDirectoryEntry)
    ensures
        entry@ == entry_at(path@),
{
    let chars = chars_of(path);
    let normalized = trim_end_chars(chars.as_slice(), '/');
    let mut from: usize = normalized.len();
    let end = normalized.len();
    assert(normalized@.take(end as int) =~= normalized@);
    assert(normalized@.subrange(end as int, end as int) =~= Seq::<char>::empty());
    assert(last_part(normalized@) =~= last_part(normalized@.take(from as int))
        + normalized@.subrange(from as int, end as int));
    while 0 < from && normalized[from - 1] != '/'
        invariant
            from <= end,
            end == normalized@.len(),
            last_part(normalized@) == last_part(normalized@.take(from as int))
                + normalized@.subrange(from as int, end as int),
        decreases from,
    {
        let ghost front = normalized@.take(from as int);
        assert(front.drop_last() =~= normalized@.take(from - 1));
        assert(last_part(front) == last_part(front.drop_last()).push(front.last()));
        assert(last_part(front) + normalized@.subrange(from as int, end as int) =~= last_part(
            normalized@.take(from - 1),
        ) + normalized@.subrange(from - 1, end as int));
        from = from - 1;
    }
    assert(last_part(normalized@.take(from as int)) =~= Seq::<char>::empty());
    let name = slice(normalized, from, end);
    assert(last_part(normalized@) =~= name@);
    SshDirectoryEntry { name: string_of(name), path: string_of(normalized) }
}

/// The directories whose paths stand in `bytes`, with zero bytes between them.
fn list_entries(bytes: &[u8]) -> (entries: Vec<SshDirectoryEntry>)
    ensures
        entry_views(entries@) == listed_entries(bytes@),
{
    let mut entries: Vec<SshDirectoryEntry> = Vec::new();
    let mut from: usize = 0;
    assert(bytes@.skip(0) =~= bytes@);
    assert(entry_views(entries@) + listed_entries(bytes@) =~= listed_entries(bytes@));
    while from < bytes.len()
        invariant
            from <= bytes@.len(),
            listed_entries(bytes@) == entry_views(entries@) + listed_entries(
                bytes@.skip(from as int),
            ),
        decreases bytes@.len() - from,
    {
        let ghost rest = bytes@.skip(from as int);
        let ghost before = entry_views(entries@);
        let end = zero_position(bytes, from);
        let length = bytes.len();
        let path = vstd::slice::slice_subrange(bytes, from, end);
        assert(path@ =~= rest.take(end - from));
        if path.len() > 0 {
            if let Some(text) = utf8_text(vstd::slice::slice_to_vec(path)) {
                entries.push(directory_entry(text.as_str()));
            }
        }
        let ghost here = if path@.len() > 0 && valid_utf8(path@) {
            seq![entry_at(decode_utf8(path@))]
        } else {
            Seq::empty()
        };
        assert(entry_views(entries@) =~= before + here);
        if end < length {
            assert(rest.skip(end - from + 1) =~= bytes@.skip(end + 1));
            assert(before + (here + listed_entries(bytes@.skip(end + 1))) =~= before + here
                + listed_entries(bytes@.skip(end + 1)));
            from = end + 1;
        } else {
            assert(bytes@.skip(length as int) =~= Seq::<u8>::empty());
            assert(listed_entries(bytes@.skip(length as int)) =~= Seq::<Entry>::empty());
            assert(before + here =~= before + here + Seq::<Entry>::empty());
            from = length;
        }
    }
    assert(bytes@.skip(from as int) =~= Seq::<u8>::empty());
    assert(listed_entries(bytes@) =~= entry_views(entries@));
    entries
}

fn chars_le(a: &[char], b: &[char]) -> (r: bool)
    ensures
        r == text_le(a@, b@),
{
    let mut i: usize = 0;
    assert(a@.skip(0) =~= a@);
    assert(b@.skip(0) =~= b@);
    loop
        invariant
            i <= a@.len(),
            i <= b@.len(),
            text_le(a@, b@) == text_le(a@.skip(i as int), b@.skip(i as int)),
        decreases a@.len() - i,
    {
        if i == a.len() {
            return true;
        }
        if i == b.len() {
            return false;
        }
        let x = a[i];
        let y = b[i];
        assert(a@.skip(i as int)[0] == x);
        assert(b@.skip(i as int)[0] == y);
        if x != y {
            return x < y;
        }
        assert(a@.skip(i as int).drop_first() =~= a@.skip(i + 1));
        assert(b@.skip(i as int).drop_first() =~= b@.skip(i + 1));
        i = i + 1;
    }
}

proof fn lemma_text_le_total(a: Seq<char>, b: Seq<char>)
    ensures
        text_le(a, b) || text_le(b, a),
    decreases a.len(),
{
    if a.len() > 0 && b.len() > 0 && a[0] == b[0] {
        lemma_text_le_total(a.drop_first(), b.drop_first());
    }
}

proof fn lemma_text_le_transitive(a: Seq<char>, b: Seq<char>, c: Seq<char>)
    requires
        text_le(a, b),
        text_le(b, c),
    ensures
        text_le(a, c),
    decreases a.len(),
{
    if a.len() > 0 && b.len() > 0 && c.len() > 0 && a[0] == b[0] && b[0] == c[0] {
        lemma_text_le_transitive(a.drop_first(), b.drop_first(), c.drop_first());
    }
}

proof fn lemma_with_key_add(a: Seq<Keyed>, b: Seq<Keyed>, key: Seq<char>)
    ensures
        with_key(a + b, key) == with_key(a, key) + with_key(b, key),
{
    Seq::filter_distributes_over_add(a, b, |entry: Keyed| entry.key == key);
}

proof fn lemma_with_key_none(a: Seq<Keyed>, key: Seq<char>)
    requires
        forall|i: int| 0 <= i < a.len() ==> (#[trigger] a[i]).key != key,
    ensures
        with_key(a, key) == Seq::<Keyed>::empty(),
    decreases a.len(),
{
    reveal(Seq::filter);
    if a.len() > 0 {
        assert forall|i: int| 0 <= i < a.drop_last().len() implies (
        #[trigger] a.drop_last()[i]).key != key by {
            assert(a.drop_last()[i] == a[i]);
        }
        lemma_with_key_none(a.drop_last(), key);
        assert(a[a.len() - 1].key != key);
    }
}

proof fn lemma_insert_keeps_sorted(
    entries: Seq<Keyed>,
    sorted: Seq<Keyed>,
    entry: Keyed,
    at: int,
)
    requires
        is_sorted_from(entries, sorted),
        0 <= at <= sorted.len(),
        forall|i: int|
            0 <= i < at ==> !text_le(entry.key, (#[trigger] sorted[i]).key),
        at < sorted.len() ==> text_le(entry.key, sorted[at].key),
    ensures
        is_sorted_from(seq![entry] + entries, sorted.insert(at, entry)),
{
    let key = entry.key;
    let front = sorted.take(at);
    let tail = sorted.skip(at);
    let one = seq![entry];
    let result = sorted.insert(at, entry);
    assert(result =~= front + (one + tail));
    assert(sorted =~= front + tail);
    assert forall|i: int, j: int| 0 <= i <= j < result.len() implies text_le(
        (#[trigger] result[i]).key,
        (#[trigger] result[j]).key,
    ) by {
        let a = if i < at {
            sorted[i]
        } else if i == at {
            entry
        } else {
            sorted[i - 1]
        };
        let b = if j < at {
            sorted[j]
        } else if j == at {
            entry
        } else {
            sorted[j - 1]
        };
        assert(result[i] == a);
        assert(result[j] == b);
        if i == at && j == at {
            lemma_text_le_total(key, key);
        } else if i < at && j == at {
            lemma_text_le_total(key, sorted[i].key);
        } else if i == at && j > at {
            assert(text_le(sorted[at].key, sorted[j - 1].key));
            lemma_text_le_transitive(key, sorted[at].key, sorted[j - 1].key);
        }
    }
    assert forall|k: Seq<char>| #[trigger] with_key(result, k) == with_key(one + entries, k) by {
        lemma_with_key_add(front, one + tail, k);
        lemma_with_key_add(one, tail, k);
        lemma_with_key_add(front, tail, k);
        lemma_with_key_add(one, entries, k);
        assert(with_key(sorted, k) == with_key(entries, k));
        if k == key {
            assert forall|i: int| 0 <= i < front.len() implies (#[trigger] front[i]).key
                != k by {
                assert(front[i] == sorted[i]);
                lemma_text_le_total(key, key);
            }
            lemma_with_key_none(front, k);
            assert(with_key(result, k) =~= with_key(one + entries, k));
        } else {
            lemma_with_key_none(one, k);
            assert(with_key(result, k) =~= with_key(one + entries, k));
        }
    }
}

proof fn lemma_sorted_from_holds(keyed: Seq<Keyed>, sorted: Seq<Keyed>, i: int)
    requires
        is_sorted_from(keyed, sorted),
        0 <= i < sorted.len(),
    ensures
        keyed.contains(sorted[i]),
{
    broadcast use vstd::seq_lib::group_filter_ensures;

    let key = sorted[i].key;
    let pred = |k: Keyed| k.key == key;
    assert(sorted.filter(pred).contains(sorted[i]));
    assert(with_key(sorted, key) == with_key(keyed, key));
    lemma_filtered_is_held(keyed, pred, sorted[i]);
}

proof fn lemma_filtered_is_held(keyed: Seq<Keyed>, pred: spec_fn(Keyed) -> bool, item: Keyed)
    requires
        keyed.filter(pred).contains(item),
    ensures
        keyed.contains(item),
    decreases keyed.len(),
{
    reveal(Seq::filter);
    if keyed.len() > 0 {
        let front = keyed.drop_last();
        let i = choose|i: int|
            0 <= i < keyed.filter(pred).len() && keyed.filter(pred)[i] == item;
        if pred(keyed.last()) && i == front.filter(pred).len() {
            assert(keyed[keyed.len() - 1] == item);
        } else {
            assert(front.filter(pred)[i] == item);
            lemma_filtered_is_held(front, pred, item);
            let j = choose|j: int| 0 <= j < front.len() && front[j] == item;
            assert(keyed[j] == item);
        }
    }
}

fn copied(entry: &SshDirectoryEntry) -> (copy: SshDirectoryEntry)
    ensures
        copy@ == entry@,
{
    SshDirectoryEntry {
        name: entry.name.as_str().to_owned(),
        path: entry.path.as_str().to_owned(),
    }
}

/// `keyed` in the order of the keys; those that share a key stay in their order.
pub fn sort_keyed(keyed: Vec<(String, SshDirectoryEntry)>) -> (sorted: Vec<
    (String, SshDirectoryEntry),
>)
    ensures
        is_sorted_from(keyed_views(keyed@), keyed_views(sorted@)),
{
    let ghost all = keyed_views(keyed@);
    let mut waiting = keyed;
    let mut sorted: Vec<(String, SshDirectoryEntry)> = Vec::new();
    assert(is_sorted_from(all.skip(all.len() as int), keyed_views(sorted@))) by {
        assert(all.skip(all.len() as int) =~= keyed_views(sorted@));
    }
    while waiting.len() > 0
        invariant
            waiting@.len() <= all.len(),
            keyed_views(waiting@) == all.take(waiting@.len() as int),
            is_sorted_from(all.skip(waiting@.len() as int), keyed_views(sorted@)),
        decreases waiting@.len(),
    {
        let ghost before = waiting@;
        if let Some(next) = waiting.pop() {
            let ghost count = waiting@.len() as int;
            let ghost view = Keyed { key: next.0@, entry: next.1@ };
            let key = chars_of(next.0.as_str());
            let mut at: usize = 0;
            while at < sorted.len() && !chars_le(
                key.as_slice(),
                chars_of(sorted[at].0.as_str()).as_slice(),
            )
                invariant
                    at <= sorted@.len(),
                    key@ == view.key,
                    forall|i: int|
                        0 <= i < at ==> !text_le(
                            view.key,
                            (#[trigger] keyed_views(sorted@)[i]).key,
                        ),
                decreases sorted@.len() - at,
            {
                assert(keyed_views(sorted@)[at as int].key == sorted@[at as int].0@);
                at = at + 1;
            }
            proof {
                if at < sorted@.len() {
                    assert(keyed_views(sorted@)[at as int].key == sorted@[at as int].0@);
                }
                lemma_insert_keeps_sorted(
                    all.skip(count + 1),
                    keyed_views(sorted@),
                    view,
                    at as int,
                );
                assert(keyed_views(before)[count] == view);
                assert(all[count] == view);
                assert(seq![view] + all.skip(count + 1) =~= all.skip(count));
                assert(keyed_views(waiting@) =~= all.take(count));
                assert(keyed_views(sorted@.insert(at as int, next)) =~= keyed_views(
                    sorted@,
                ).insert(at as int, view));
            }
            sorted.insert(at, next);
        }
    }
    assert(all.skip(0) =~= all);
    sorted
}

/// The entries in the order of their names in lower case; entries whose names differ in
/// case alone stay in their order.
pub fn sort_entries(entries: Vec<SshDirectoryEntry>) -> (sorted: Vec<SshDirectoryEntry>)
    ensures
        is_sorted_from(
            keyed_by_name(entry_views(entries@)),
            keyed_by_name(entry_views(sorted@)),
        ),
{
    let mut keyed: Vec<(String, SshDirectoryEntry)> = Vec::new();
    for i in 0..entries.len()
        invariant
            keyed_views(keyed@) == keyed_by_name(entry_views(entries@)).take(i as int),
    {
        let entry = copied(&entries[i]);
        let key = lowercase_text(entry.name.as_str());
        let ghost all = keyed_by_name(entry_views(entries@));
        let ghost before = keyed_views(keyed@);
        keyed.push((key, entry));
        assert(keyed_views(keyed@) =~= before.push(all[i as int]));
        assert(all.take(i + 1) =~= all.take(i as int).push(all[i as int]));
    }
    assert(keyed_views(keyed@) =~= keyed_by_name(entry_views(entries@)));
    let ordered = sort_keyed(keyed);
    let mut sorted: Vec<SshDirectoryEntry> = Vec::new();
    for i in 0..ordered.len()
        invariant
            sorted@.len() == i,
            forall|k: int| 0 <= k < i ==> (#[trigger] sorted@[k])@ == ordered@[k].1@,
    {
        sorted.push(copied(&ordered[i].1));
    }
    proof {
        let all = keyed_by_name(entry_views(entries@));
        let result = keyed_by_name(entry_views(sorted@));
        assert forall|i: int| 0 <= i < result.len() implies result[i] == keyed_views(
            ordered@,
        )[i] by {
            lemma_sorted_from_holds(all, keyed_views(ordered@), i);
        }
        assert(result =~= keyed_views(ordered@));
    }
    sorted
}

/// The directories that the script listed, once it ended.
pub fn directory_list(output: &CommandOutput) -> (result: Result<Vec<SshDirectoryEntry>, String>)
    ensures
        if output.success {
            result matches Ok(entries) && is_sorted_from(
                keyed_by_name(listed_entries(output.stdout@)),
                keyed_by_name(entry_views(entries@)),
            )
        } else {
            result matches Err(e) && e@ == first_nonblank_line(utf8_lossy(output.stderr@))
        },
{
    if !output.success {
        return Err(single_line(output.stderr.as_slice()));
    }
    Ok(sort_entries(list_entries(output.stdout.as_slice())))
}

proof fn lemma_text_le_antisymmetric(a: Seq<char>, b: Seq<char>)
    requires
        text_le(a, b),
        text_le(b, a),
    ensures
        a == b,
    decreases a.len(),
{
    if a.len() > 0 && b.len() > 0 {
        lemma_text_le_antisymmetric(a.drop_first(), b.drop_first());
        assert(a =~= seq![a[0]] + a.drop_first());
        assert(b =~= seq![b[0]] + b.drop_first());
    } else {
        assert(a =~= b);
    }
}

proof fn lemma_with_key_first(entries: Seq<Keyed>, key: Seq<char>)
    requires
        entries.len() > 0,
    ensures
        with_key(entries, key) == if entries[0].key == key {
            seq![entries[0]] + with_key(entries.drop_first(), key)
        } else {
            with_key(entries.drop_first(), key)
        },
{
    let one = seq![entries[0]];
    assert(entries =~= one + entries.drop_first());
    lemma_with_key_add(one, entries.drop_first(), key);
    reveal(Seq::filter);
    assert(one.drop_last() =~= Seq::<Keyed>::empty());
    assert(one.drop_last().filter(|entry: Keyed| entry.key == key) =~= Seq::<Keyed>::empty());
    if entries[0].key == key {
        assert(with_key(one, key) =~= one);
    } else {
        assert(with_key(one, key) =~= Seq::<Keyed>::empty());
        assert(with_key(entries, key) =~= with_key(entries.drop_first(), key));
    }
}

proof fn lemma_with_key_holds(entries: Seq<Keyed>, key: Seq<char>)
    requires
        with_key(entries, key).len() > 0,
    ensures
        exists|i: int| 0 <= i < entries.len() && (#[trigger] entries[i]).key == key,
{
    if forall|i: int| 0 <= i < entries.len() ==> (#[trigger] entries[i]).key != key {
        lemma_with_key_none(entries, key);
    }
}

/// The order of a listing is fixed: two orderings of the same entries by key, neither of
/// which swaps entries with equal keys, are the same.
pub proof fn law_sorting_has_one_result(entries: Seq<Keyed>, a: Seq<Keyed>, b: Seq<Keyed>)
    requires
        is_sorted_from(entries, a),
        is_sorted_from(entries, b),
    ensures
        a == b,
    decreases a.len(),
{
    if a.len() == 0 {
        assert(a =~= b);
    } else {
        let ka = a[0].key;
        let kb = b[0].key;
        lemma_with_key_first(a, ka);
        lemma_with_key_first(b, kb);
        assert(with_key(b, ka) == with_key(entries, ka));
        assert(with_key(a, kb) == with_key(entries, kb));
        lemma_with_key_holds(b, ka);
        lemma_with_key_holds(a, kb);
        let i = choose|i: int| 0 <= i < b.len() && (#[trigger] b[i]).key == ka;
        let j = choose|j: int| 0 <= j < a.len() && (#[trigger] a[j]).key == kb;
        assert(text_le(b[0].key, b[i].key));
        assert(text_le(a[0].key, a[j].key));
        lemma_text_le_antisymmetric(ka, kb);
        assert(with_key(a, ka)[0] == a[0]);
        assert(with_key(b, ka)[0] == b[0]);
        let rest_a = a.drop_first();
        let rest_b = b.drop_first();
        assert(is_sorted_from(rest_a, rest_a)) by {
            assert forall|x: int, y: int| 0 <= x <= y < rest_a.len() implies text_le(
                (#[trigger] rest_a[x]).key,
                (#[trigger] rest_a[y]).key,
            ) by {
                assert(rest_a[x] == a[x + 1]);
                assert(rest_a[y] == a[y + 1]);
            }
        }
        assert(is_sorted_from(rest_a, rest_b)) by {
            assert forall|x: int, y: int| 0 <= x <= y < rest_b.len() implies text_le(
                (#[trigger] rest_b[x]).key,
                (#[trigger] rest_b[y]).key,
            ) by {
                assert(rest_b[x] == b[x + 1]);
                assert(rest_b[y] == b[y + 1]);
            }
            assert forall|key: Seq<char>| #[trigger]
                with_key(rest_b, key) == with_key(rest_a, key) by {
                lemma_with_key_first(a, key);
                lemma_with_key_first(b, key);
                assert(with_key(b, key) == with_key(a, key));
                if key == ka {
                    assert(with_key(rest_a, key) =~= with_key(a, key).drop_first());
                    assert(with_key(rest_b, key) =~= with_key(b, key).drop_first());
                }
            }
        }
        law_sorting_has_one_result(rest_a, rest_a, rest_b);
        assert(a =~= seq![a[0]] + rest_a);
        assert(b =~= seq![b[0]] + rest_b);
    }
}

proof fn lemma_count_with_key(entries: Seq<Keyed>, entry: Keyed)
    ensures
        entries.to_multiset().count(entry) == with_key(
            entries,
            entry.key,
        ).to_multiset().count(entry),
    decreases entries.len(),
{
    broadcast use vstd::seq_lib::group_to_multiset_ensures;

    reveal(Seq::filter);
    if entries.len() > 0 {
        let front = entries.drop_last();
        lemma_count_with_key(front, entry);
        assert(entries =~= front.push(entries.last()));
    } else {
        assert(with_key(entries, entry.key) =~= entries);
    }
}

/// Ordering a listing neither loses nor adds nor repeats a directory.
pub proof fn law_sorting_keeps_the_entries(entries: Seq<Keyed>, sorted: Seq<Keyed>)
    requires
        is_sorted_from(entries, sorted),
    ensures
        sorted.to_multiset() == entries.to_multiset(),
{
    assert forall|entry: Keyed|
        sorted.to_multiset().count(entry) == entries.to_multiset().count(entry) by {
        lemma_count_with_key(sorted, entry);
        lemma_count_with_key(entries, entry);
        assert(with_key(sorted, entry.key) == with_key(entries, entry.key));
    }
    assert(sorted.to_multiset() =~= entries.to_multiset());
}

/// Whether `entry` is the directory at `text`: its path is `text` without the slashes at
/// its end, and its name is all that follows the last slash of that.
pub open spec fn is_directory_at(entry: Entry, text: Seq<char>) -> bool {
    let path = entry.path;
    let name = entry.name;
    &&& path.len() <= text.len()
    &&& text.take(path.len() as int) == path
    &&& forall|i: int| path.len() <= i < text.len() ==> #[trigger] text[i] == '/'
    &&& path.len() > 0 ==> path.last() != '/'
    &&& name.len() <= path.len()
    &&& path.skip(path.len() - name.len()) == name
    &&& forall|i: int| 0 <= i < name.len() ==> #[trigger] name[i] != '/'
    &&& name.len() < path.len() ==> path[path.len() - name.len() - 1] == '/'
}

proof fn lemma_slashes_are_trimmed(text: Seq<char>)
    ensures
        ({
            let path = trim_end_char(text, '/');
            &&& path.len() <= text.len()
            &&& text.take(path.len() as int) == path
            &&& forall|i: int| path.len() <= i < text.len() ==> #[trigger] text[i] == '/'
            &&& path.len() > 0 ==> path.last() != '/'
        }),
    decreases text.len(),
{
    if text.len() > 0 && text.last() == '/' {
        let front = text.drop_last();
        lemma_slashes_are_trimmed(front);
        let path = trim_end_char(front, '/');
        assert(text.take(path.len() as int) =~= front.take(path.len() as int));
        assert forall|i: int| path.len() <= i < text.len() implies #[trigger] text[i] == '/' by {
            if i < front.len() {
                assert(text[i] == front[i]);
            }
        }
    } else {
        assert(text.take(text.len() as int) =~= text);
    }
}

proof fn lemma_name_follows_the_last_slash(path: Seq<char>)
    ensures
        ({
            let name = last_part(path);
            &&& name.len() <= path.len()
            &&& path.skip(path.len() - name.len()) == name
            &&& forall|i: int| 0 <= i < name.len() ==> #[trigger] name[i] != '/'
            &&& name.len() < path.len() ==> path[path.len() - name.len() - 1] == '/'
        }),
    decreases path.len(),
{
    if path.len() == 0 || path.last() == '/' {
        assert(path.skip(path.len() as int) =~= Seq::<char>::empty());
    } else {
        let front = path.drop_last();
        let shorter = last_part(front);
        lemma_name_follows_the_last_slash(front);
        assert(path.skip(path.len() - shorter.len() - 1) =~= front.skip(
            front.len() - shorter.len(),
        ).push(path.last()));
    }
}

/// A directory that is listed has the path that was printed, without slashes at its end,
/// and is named by the last part of it.
pub proof fn law_entry_has_its_path_and_name(text: Seq<char>)
    ensures
        is_directory_at(entry_at(text), text),
{
    lemma_slashes_are_trimmed(text);
    lemma_name_follows_the_last_slash(trim_end_char(text, '/'));
}

/// Whether `path` can be printed as a path: it is not empty, is valid text and holds no
/// zero byte.
pub open spec fn is_printed_path(path: Seq<u8>) -> bool {
    &&& path.len() > 0
    &&& valid_utf8(path)
    &&& forall|i: int| 0 <= i < path.len() ==> #[trigger] path[i] != 0
}

/// The paths with a zero byte after each.
pub open spec fn zero_terminated(paths: Seq<Seq<u8>>) -> Seq<u8>
    decreases paths.len(),
{
    if paths.len() == 0 {
        Seq::empty()
    } else {
        paths[0] + seq![0u8] + zero_terminated(paths.drop_first())
    }
}

/// The paths with a zero byte between each two.
pub open spec fn zero_separated(paths: Seq<Seq<u8>>) -> Seq<u8>
    decreases paths.len(),
{
    if paths.len() == 0 {
        Seq::empty()
    } else if paths.len() == 1 {
        paths[0]
    } else {
        paths[0] + seq![0u8] + zero_separated(paths.drop_first())
    }
}

proof fn lemma_first_zero_after(path: Seq<u8>, rest: Seq<u8>)
    requires
        forall|i: int| 0 <= i < path.len() ==> #[trigger] path[i] != 0,
        rest.len() > 0 ==> rest[0] == 0,
    ensures
        first_zero(path + rest) == path.len(),
    decreases path.len(),
{
    if path.len() > 0 {
        let tail = path.drop_first();
        assert forall|i: int| 0 <= i < tail.len() implies #[trigger] tail[i] != 0 by {
            assert(tail[i] == path[i + 1]);
        }
        lemma_first_zero_after(tail, rest);
        assert((path + rest).drop_first() =~= tail + rest);
        assert((path + rest)[0] == path[0]);
    } else {
        assert(path + rest =~= rest);
    }
}

/// A listing is read path by path: what stands before the first zero byte is one entry
/// where it is a path, and none where it is empty or no valid text; what follows is read
/// in the same way.
pub proof fn law_listing_is_read_path_by_path(path: Seq<u8>, rest: Seq<u8>)
    requires
        forall|i: int| 0 <= i < path.len() ==> #[trigger] path[i] != 0,
    ensures
        ({
            let all = listed_entries(path + seq![0u8] + rest);
            let later = listed_entries(rest);
            if path.len() > 0 && valid_utf8(path) {
                &&& all.len() == later.len() + 1
                &&& is_directory_at(all[0], decode_utf8(path))
                &&& all.drop_first() == later
            } else {
                all == later
            }
        }),
{
    let bytes = path + seq![0u8] + rest;
    let tail = seq![0u8] + rest;
    assert(bytes =~= path + tail);
    lemma_first_zero_after(path, tail);
    assert(bytes.take(path.len() as int) =~= path);
    assert(bytes.skip(path.len() as int + 1) =~= rest);
    law_entry_has_its_path_and_name(decode_utf8(path));
    let all = listed_entries(bytes);
    let later = listed_entries(rest);
    if path.len() > 0 && valid_utf8(path) {
        assert(all == seq![entry_at(decode_utf8(path))] + later);
        assert(all.drop_first() =~= later);
    } else {
        assert(all =~= later);
    }
}

/// Whether `entries` are the directories at `paths`, in order.
pub open spec fn are_directories_at(entries: Seq<Entry>, paths: Seq<Seq<u8>>) -> bool {
    &&& entries.len() == paths.len()
    &&& forall|i: int|
        0 <= i < paths.len() ==> is_directory_at(#[trigger] entries[i], decode_utf8(paths[i]))
}

proof fn lemma_directories_prepend(
    entries: Seq<Entry>,
    paths: Seq<Seq<u8>>,
)
    requires
        entries.len() > 0,
        paths.len() > 0,
        is_directory_at(entries[0], decode_utf8(paths[0])),
        are_directories_at(entries.drop_first(), paths.drop_first()),
    ensures
        are_directories_at(entries, paths),
{
    assert forall|i: int| 0 <= i < paths.len() implies is_directory_at(
        #[trigger] entries[i],
        decode_utf8(paths[i]),
    ) by {
        if i > 0 {
            assert(entries.drop_first()[i - 1] == entries[i]);
            assert(paths.drop_first()[i - 1] == paths[i]);
        }
    }
}

/// No path is lost, whatever its name: paths that are printed with a zero byte after each,
/// or between each two, are listed one entry for each, in order.
pub proof fn law_every_printed_path_is_listed(paths: Seq<Seq<u8>>)
    requires
        forall|i: int| 0 <= i < paths.len() ==> is_printed_path(#[trigger] paths[i]),
    ensures
        are_directories_at(listed_entries(zero_terminated(paths)), paths),
        are_directories_at(listed_entries(zero_separated(paths)), paths),
    decreases paths.len(),
{
    if paths.len() > 0 {
        let tail = paths.drop_first();
        assert forall|i: int| 0 <= i < tail.len() implies is_printed_path(#[trigger] tail[i]) by {
            assert(tail[i] == paths[i + 1]);
        }
        law_every_printed_path_is_listed(tail);
        let first = paths[0];
        law_listing_is_read_path_by_path(first, zero_terminated(tail));
        lemma_directories_prepend(listed_entries(zero_terminated(paths)), paths);
        if paths.len() == 1 {
            lemma_first_zero_after(first, Seq::empty());
            assert(first + Seq::<u8>::empty() =~= first);
            assert(first.take(first.len() as int) =~= first);
            law_entry_has_its_path_and_name(decode_utf8(first));
            assert(listed_entries(first) =~= seq![entry_at(decode_utf8(first))]);
        } else {
            law_listing_is_read_path_by_path(first, zero_separated(tail));
            lemma_directories_prepend(listed_entries(zero_separated(paths)), paths);
        }
    }
}

proof fn lemma_keyed_counts(entries: Seq<Entry>, entry: Entry)
    ensures
        entries.to_multiset().count(entry) == keyed_by_name(entries).to_multiset().count(
            Keyed { key: lowercase(entry.name), entry },
        ),
    decreases entries.len(),
{
    broadcast use vstd::seq_lib::group_to_multiset_ensures;

    if entries.len() > 0 {
        let front = entries.drop_last();
        lemma_keyed_counts(front, entry);
        assert(entries =~= front.push(entries.last()));
        assert(keyed_by_name(entries) =~= keyed_by_name(front).push(
            Keyed { key: lowercase(entries.last().name), entry: entries.last() },
        ));
    } else {
        assert(keyed_by_name(entries) =~= Seq::<Keyed>::empty());
    }
}

proof fn lemma_ordered_entries_are_the_same(a: Seq<Entry>, b: Seq<Entry>)
    requires
        is_sorted_from(keyed_by_name(a), keyed_by_name(b)),
    ensures
        a.to_multiset() == b.to_multiset(),
        a.len() == b.len(),
{
    law_sorting_keeps_the_entries(keyed_by_name(a), keyed_by_name(b));
    assert forall|entry: Entry| a.to_multiset().count(entry) == b.to_multiset().count(entry) by {
        lemma_keyed_counts(a, entry);
        lemma_keyed_counts(b, entry);
    }
    assert(a.to_multiset() =~= b.to_multiset());
}

/// What the host printed is handed on as a whole: where the script printed these paths, the
/// result holds as many directories, one at each path and none at any other, each as often
/// as it was printed, in the order of their names in lower case.
pub proof fn law_directory_list_is_complete(
    output: CommandOutput,
    paths: Seq<Seq<u8>>,
    result: Result<Vec<SshDirectoryEntry>, String>,
)
    requires
        call_ensures(directory_list, (&output,), result),
        output.success,
        forall|i: int| 0 <= i < paths.len() ==> is_printed_path(#[trigger] paths[i]),
        output.stdout@ == zero_terminated(paths) || output.stdout@ == zero_separated(paths),
    ensures
        result matches Ok(entries) && {
            let found = entry_views(entries@);
            &&& found.len() == paths.len()
            &&& exists|listed: Seq<Entry>| #[trigger]
                are_directories_at(listed, paths) && found.to_multiset() == listed.to_multiset()
            &&& forall|i: int|
                0 <= i < paths.len() ==> exists|j: int|
                    0 <= j < found.len() && is_directory_at(
                        #[trigger] found[j],
                        decode_utf8(#[trigger] paths[i]),
                    )
            &&& forall|i: int, j: int|
                0 <= i <= j < found.len() ==> text_le(
                    lowercase((#[trigger] found[i]).name),
                    lowercase((#[trigger] found[j]).name),
                )
        },
{
    broadcast use vstd::seq_lib::group_to_multiset_ensures;

    law_every_printed_path_is_listed(paths);
    let listed = listed_entries(output.stdout@);
    let found = entry_views(result->Ok_0@);
    lemma_ordered_entries_are_the_same(listed, found);
    assert(are_directories_at(listed, paths));
    assert forall|i: int| 0 <= i < paths.len() implies exists|j: int|
        0 <= j < found.len() && is_directory_at(
            #[trigger] found[j],
            decode_utf8(#[trigger] paths[i]),
        ) by {
        let entry = listed[i];
        assert(listed.contains(entry));
        assert(found.to_multiset().count(entry) > 0);
        assert(found.contains(entry));
        let j = choose|j: int| 0 <= j < found.len() && found[j] == entry;
        assert(is_directory_at(found[j], decode_utf8(paths[i])));
    }
    let keyed = keyed_by_name(found);
    assert forall|i: int, j: int| 0 <= i <= j < found.len() implies text_le(
        lowercase((#[trigger] found[i]).name),
        lowercase((#[trigger] found[j]).name),
    ) by {
        assert(text_le(keyed[i].key, keyed[j].key));
    }
}

/// A script that failed gives the first line that it printed as an error.
pub proof fn law_failed_listing_gives_the_error(
    output: CommandOutput,
    listed: Result<Vec<SshDirectoryEntry>, String>,
    checked_path: Result<SshPathCheckResult, String>,
)
    requires
        call_ensures(directory_list, (&output,), listed),
        call_ensures(path_check_result, (&output,), checked_path),
    ensures
        listed is Ok <==> output.success,
        checked_path is Ok <==> output.success,
        listed matches Err(e) ==> e@ == first_nonblank_line(utf8_lossy(output.stderr@)),
        checked_path matches Err(e) ==> e@ == first_nonblank_line(utf8_lossy(output.stderr@)),
{
}

/// The order is that of code points, from the first one: of two texts, the one comes first
/// that has the smaller code point where they first differ, or that the other goes on from.
pub proof fn law_texts_are_ordered_by_code_points(a: Seq<char>, b: Seq<char>, i: int)
    requires
        0 <= i <= a.len(),
        i <= b.len(),
        a.take(i) == b.take(i),
    ensures
        i == a.len() ==> text_le(a, b),
        i == b.len() && i < a.len() ==> !text_le(a, b),
        i < a.len() && i < b.len() && a[i] != b[i] ==> (text_le(a, b) <==> a[i] < b[i]),
    decreases i,
{
    if i > 0 {
        assert(a.take(i)[0] == a[0]);
        assert(b.take(i)[0] == b[0]);
        assert(a.drop_first().take(i - 1) =~= a.take(i).drop_first());
        assert(b.drop_first().take(i - 1) =~= b.take(i).drop_first());
        law_texts_are_ordered_by_code_points(a.drop_first(), b.drop_first(), i - 1);
    }
}

/// What the host answers of a path: `git` and `ok` say that it can be entered, the first
/// that it is in a repository; `inaccessible` that it exists; anything else nothing.
pub proof fn law_path_answer_is_understood(answer: &str, result: SshPathCheckResult)
    requires
        call_ensures(path_check_answer, (answer,), result),
    ensures
        result.git_repository <==> answer@ == "git"@,
        result.accessible <==> answer@ == "git"@ || answer@ == "ok"@,
        result.exists <==> answer@ == "git"@ || answer@ == "ok"@ || answer@ == "inaccessible"@,
{
    reveal_strlit("git");
    reveal_strlit("ok");
    reveal_strlit("inaccessible");
    assert("git"@.len() == 3);
    assert("ok"@.len() == 2);
    assert("inaccessible"@.len() == 12);
}

/// What a script that ended well printed, without the white space around it, is the answer
/// of the host.
pub proof fn law_path_check_reads_the_answer(
    output: CommandOutput,
    result: Result<SshPathCheckResult, String>,
)
    requires
        call_ensures(path_check_result, (&output,), result),
        output.success,
        valid_utf8(output.stdout@),
    ensures
        ({
            let answer = trim(decode_utf8(output.stdout@));
            result matches Ok(r) && {
                &&& r.git_repository <==> answer == "git"@
                &&& r.accessible <==> answer == "git"@ || answer == "ok"@
                &&& r.exists <==> answer == "git"@ || answer == "ok"@ || answer
                    == "inaccessible"@
            }
        }),
{
    reveal_strlit("git");
    reveal_strlit("ok");
    reveal_strlit("inaccessible");
    assert("git"@.len() == 3);
    assert("ok"@.len() == 2);
    assert("inaccessible"@.len() == 12);
}

/// Whether a host may be asked about the path: the way to it is valid, nobody has to answer
/// a prompt, and the path is absolute, goes nowhere up and fits into a command line.
pub open spec fn may_be_asked(
    validated: Result<(), String>,
    spec: SshConnectionSpec,
    path: Seq<char>,
) -> bool {
    &&& validated is Ok
    &&& spec.auth_mode@ != "password_prompt"@
    &&& spec.auth_mode@ != "interactive"@
    &&& remote_path_error(path) is None
}

/// A host is asked about a path, and for the directories in it, exactly where it may be.
/// The script holds the path, without the white space around it, as a word from which a
/// shell reads that path and nothing else. Looking at a path may take 5 seconds more than
/// connecting, listing 10 seconds more.
pub proof fn law_scripts_hold_the_path(
    validated: Result<(), String>,
    spec: SshConnectionSpec,
    path: &str,
    check: Result<RemotePlan, String>,
    list: Result<RemotePlan, String>,
)
    requires
        call_ensures(ssh_check_path, (validated, &spec, path), check),
        call_ensures(ssh_list_directories, (validated, &spec, path), list),
    ensures
        check is Ok <==> may_be_asked(validated, spec, trim(path@)),
        list is Ok <==> may_be_asked(validated, spec, trim(path@)),
        check is Ok ==> exists|word: Seq<char>|
            {
                &&& #[trigger] super::path::shell_reads(word, false) == Some(trim(path@))
                &&& check->Ok_0.script@ == "if [ ! -d "@ + word
                    + " ]; then printf 'missing'; elif [ ! -x "@ + word
                    + " ]; then printf 'inaccessible'; elif git -C "@ + word
                    + " rev-parse --is-inside-work-tree >/dev/null 2>&1; then printf 'git'; else printf 'ok'; fi"@
                &&& list->Ok_0.script@ == "find -- "@ + word
                    + " -mindepth 1 -maxdepth 1 -type d -print0"@
            },
        check is Ok && spec.connect_timeout_sec <= 300 ==> check->Ok_0.timeout_sec
            == spec.connect_timeout_sec + 5 && list->Ok_0.timeout_sec == spec.connect_timeout_sec
            + 10,
        check is Ok && spec.connect_timeout_sec > 300 ==> check->Ok_0.timeout_sec == 305
            && list->Ok_0.timeout_sec == 310,
        validated matches Err(error) ==> check->Err_0@ == error@ && list->Err_0@ == error@,
        validated is Ok && (spec.auth_mode@ == "password_prompt"@ || spec.auth_mode@
            == "interactive"@) ==> check->Err_0@ == "ssh_interactive_auth_required"@
            && list->Err_0@ == "ssh_interactive_auth_required"@,
{
    super::path::law_shell_reads_quoted_text(trim(path@));
    let word = quoted(trim(path@));
    assert(super::path::shell_reads(word, false) == Some(trim(path@)));
}

} // verus!
