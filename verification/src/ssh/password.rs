//! The accounts under which passwords of hosts are kept.

use crate::ids::{
    hyphenated, is_uuid, law_hyphenated_forms_differ, law_text_writes_one_uuid, parse_uuid,
    uuid_text, writes_uuid,
};
use crate::text::{trim, trim_text};
use vstd::prelude::*;
use vstd::string::StringExecFns;

verus! {

/// The account of the host `id`.
pub open spec fn account_name(id: u128) -> Seq<char> {
    "ssh:"@ + hyphenated(id) + ":password"@
}

/// The account of a host whose identifier was read, if it could be.
pub fn password_account(id: Option<u128>) -> (result: Result<String, String>)
    ensures
        match id {
            Some(id) => result matches Ok(account) && account@ == account_name(id),
            None => result matches Err(e) && e@ == "ssh_host_id_invalid"@,
        },
{
    match id {
        Some(id) => {
            let mut account = String::new();
            account.append("ssh:");
            account.append(uuid_text(id).as_str());
            account.append(":password");
            assert(account@ =~= account_name(id));
            Ok(account)
        },
        None => Err("ssh_host_id_invalid".to_owned()),
    }
}

/// Whether `account` is the account of the host that `host_id` names.
pub open spec fn is_account_of(host_id: Seq<char>, account: Seq<char>) -> bool {
    exists|id: u128| #[trigger] writes_uuid(trim(host_id), id) && account == account_name(id)
}

/// Whether `result` is the account of the host that `host_id` names, or that it names
/// none.
pub open spec fn finds_account(host_id: Seq<char>, result: Result<String, String>) -> bool {
    match result {
        Ok(account) => is_account_of(host_id, account@),
        Err(error) => !is_uuid(trim(host_id)) && error@ == "ssh_host_id_invalid"@,
    }
}

/// The host that `host_id` names, if it names one.
pub fn host_uuid(host_id: &str) -> (id: Option<u128>)
    ensures
        match id {
            Some(known) => writes_uuid(trim(host_id@), known),
            None => !is_uuid(trim(host_id@)),
        },
{
    match parse_uuid(trim_text(host_id)) {
        Ok(id) => Some(id),
        Err(_) => None,
    }
}

/// The account of the host that `host_id` names.
pub fn ssh_password_account(host_id: &str) -> (result: Result<String, String>)
    ensures
        finds_account(host_id@, result),
{
    password_account(host_uuid(host_id))
}

/// The account under which to keep a password. An empty password is refused first.
pub fn ssh_save_password(host_id: &str, password: &str) -> (result: Result<String, String>)
    ensures
        password@.len() == 0 ==> (result matches Err(e) && e@ == "ssh_password_required"@),
        password@.len() > 0 ==> finds_account(host_id@, result),
{
    if password.is_empty() {
        return Err("ssh_password_required".to_owned());
    }
    ssh_password_account(host_id)
}

/// Whether a password is kept, by what looking for it under the account gave. An empty
/// one does not count.
pub fn ssh_password_status(looked_up: Result<Option<String>, String>) -> (kept: Result<
    bool,
    String,
>)
    ensures
        match looked_up {
            Ok(Some(password)) => kept == Ok::<bool, String>(password@.len() > 0),
            Ok(None) => kept == Ok::<bool, String>(false),
            Err(error) => kept matches Err(e) && e@ == error@,
        },
{
    match looked_up {
        Ok(Some(password)) => Ok(!password.as_str().is_empty()),
        Ok(None) => Ok(false),
        Err(error) => Err(error),
    }
}

/// The account under which a password is to be forgotten.
pub fn ssh_delete_password(host_id: &str) -> (result: Result<String, String>)
    ensures
        finds_account(host_id@, result),
{
    ssh_password_account(host_id)
}

/// Two hosts never share an account.
pub proof fn law_accounts_are_distinct(a: u128, b: u128)
    requires
        account_name(a) == account_name(b),
    ensures
        a == b,
{
    let x = account_name(a);
    let y = account_name(b);
    let n = "ssh:"@.len() as int;
    assert(hyphenated(a) =~= x.subrange(n, n + 36));
    assert(hyphenated(b) =~= y.subrange(n, n + 36));
    law_hyphenated_forms_differ(a, b);
}

/// However a host's identifier is written, it leads to the same account.
pub proof fn law_spelling_does_not_matter(a: Seq<char>, b: Seq<char>, id: u128)
    requires
        writes_uuid(trim(a), id),
        writes_uuid(trim(b), id),
    ensures
        forall|account: Seq<char>|
            is_account_of(a, account) <==> #[trigger] is_account_of(b, account),
{
    assert forall|account: Seq<char>|
        is_account_of(a, account) <==> #[trigger] is_account_of(b, account) by {
        if is_account_of(a, account) {
            let other = choose|other: u128| #[trigger]
                writes_uuid(trim(a), other) && account == account_name(other);
            law_text_writes_one_uuid(trim(a), id, other);
        }
        if is_account_of(b, account) {
            let other = choose|other: u128| #[trigger]
                writes_uuid(trim(b), other) && account == account_name(other);
            law_text_writes_one_uuid(trim(b), id, other);
        }
    }
}

/// The account of a host is `ssh:`, its identifier with hyphens, and `:password`. A text that
/// is no identifier, past the white space around it, has none.
pub proof fn law_account_names_the_host(
    host_id: &str,
    account: Result<String, String>,
    forgotten: Result<String, String>,
)
    requires
        call_ensures(ssh_password_account, (host_id,), account),
        call_ensures(ssh_delete_password, (host_id,), forgotten),
    ensures
        account is Ok <==> is_uuid(trim(host_id@)),
        forall|id: u128| #[trigger]
            writes_uuid(trim(host_id@), id) ==> (account matches Ok(a) && a@ == "ssh:"@
                + hyphenated(id) + ":password"@),
        account matches Err(e) ==> e@ == "ssh_host_id_invalid"@,
        account is Ok <==> forgotten is Ok,
        account is Ok ==> account->Ok_0@ == forgotten->Ok_0@,
        forgotten matches Err(e) ==> e@ == "ssh_host_id_invalid"@,
{
    lemma_account_is_found(host_id@, account);
    lemma_account_is_found(host_id@, forgotten);
}

proof fn lemma_account_is_found(host_id: Seq<char>, result: Result<String, String>)
    requires
        finds_account(host_id, result),
    ensures
        result is Ok <==> is_uuid(trim(host_id)),
        forall|id: u128| #[trigger]
            writes_uuid(trim(host_id), id) ==> (result matches Ok(a) && a@ == account_name(id)),
        result is Ok ==> exists|id: u128| #[trigger]
            writes_uuid(trim(host_id), id) && result->Ok_0@ == account_name(id),
{
    if let Ok(account) = result {
        let known = choose|id: u128| #[trigger]
            writes_uuid(trim(host_id), id) && account@ == account_name(id);
        assert forall|id: u128| #[trigger] writes_uuid(trim(host_id), id) implies account@
            == account_name(id) by {
            law_text_writes_one_uuid(trim(host_id), id, known);
        }
    }
}

/// A password is kept under the account of its host; an empty one is refused, also for a
/// host that has no account.
pub proof fn law_password_is_kept_under_the_account(
    host_id: &str,
    password: &str,
    account: Result<String, String>,
    saved: Result<String, String>,
)
    requires
        call_ensures(ssh_password_account, (host_id,), account),
        call_ensures(ssh_save_password, (host_id, password), saved),
    ensures
        password@.len() == 0 ==> (saved matches Err(e) && e@ == "ssh_password_required"@),
        password@.len() > 0 ==> (saved is Ok <==> account is Ok),
        password@.len() > 0 && account is Ok ==> saved->Ok_0@ == account->Ok_0@,
        password@.len() > 0 && account is Err ==> saved->Err_0@ == account->Err_0@,
{
    lemma_account_is_found(host_id@, account);
    if password@.len() > 0 {
        lemma_account_is_found(host_id@, saved);
    }
}

/// A password counts as kept where one is found that is not empty.
pub proof fn law_only_a_password_counts_as_kept(
    looked_up: Result<Option<String>, String>,
    kept: Result<bool, String>,
)
    requires
        call_ensures(ssh_password_status, (looked_up,), kept),
    ensures
        kept is Ok <==> looked_up is Ok,
        kept matches Ok(k) ==> (k <==> looked_up->Ok_0 is Some && looked_up->Ok_0->0@.len() > 0),
        kept matches Err(e) ==> e@ == looked_up->Err_0@,
{
}

} // verus!
