//! Publish credentials: per-account tokens kept in the operating system's
//! secure secret store, with an interactive prompt-and-persist fallback.
//!
//! The secret store itself is an outside collaborator, reached through
//! trusted wrappers around the `keyring` crate; nothing can be promised of
//! what it holds. The retrieval protocol around it — look up first, prompt
//! only on a miss or on an explicit override, persist whatever was entered —
//! is verified over an explicit store model, `TokenStore`.

use vstd::prelude::*;
use crate::strutil::str_eq;

verus! {

/// The service under which every token of this tool is filed.
pub fn service_name() -> (r: &'static str)
    ensures
        r@ == "hajime-cli"@,
{
    "hajime-cli"
}

// ---------------------------------------------------------------------------
// The trusted reach into the secret store
// ---------------------------------------------------------------------------

#[verifier::external_type_specification]
#[verifier::external_body]
pub struct ExEntry(keyring::Entry);

#[verifier::external_type_specification]
#[verifier::external_body]
pub struct ExKeyringError(keyring::Error);

/// Relies on `keyring::Entry::new`: opens the secret-store entry named by
/// the service and user key, or reports that no store is available.
#[verifier::external_body]
fn entry_new(service: &str, user: &str) -> Result<keyring::Entry, keyring::Error> {
    keyring::Entry::new(service, user)
}

/// Relies on `keyring::Entry::get_password`: reads the secret stored under
/// the entry. What comes back is an outcome of the operating system's
/// store, so nothing is promised of it.
#[verifier::external_body]
fn entry_get_password(entry: &keyring::Entry) -> Result<String, keyring::Error> {
    entry.get_password()
}

/// Relies on `keyring::Entry::set_password`: stores the secret under the
/// entry, replacing any prior value.
#[verifier::external_body]
fn entry_set_password(entry: &keyring::Entry, token: &str) -> Result<(), keyring::Error> {
    entry.set_password(token)
}

/// Relies on the `Display` impl of `keyring::Error` for a readable message.
#[verifier::external_body]
fn keyring_error_message(e: &keyring::Error) -> String {
    format!("{}", e)
}

/// A failure of the secret store, with the store's own message.
pub struct StoreError {
    pub message: String,
}

// ---------------------------------------------------------------------------
// Account configuration
// ---------------------------------------------------------------------------

/// The publish configuration for one registry account.
pub struct PyPiConfig {
    account: String,
}

impl PyPiConfig {
    /// The account this configuration publishes under.
    pub closed spec fn spec_account(&self) -> Seq<char> {
        self.account@
    }

    /// A configuration for the named account, or for the account `default`
    /// when none is named.
    pub fn new(account: Option<String>) -> (r: PyPiConfig)
        ensures
            r.spec_account() == match account {
                Some(a) => a@,
                None => "default"@,
            },
    {
        match account {
            Some(a) => PyPiConfig { account: a },
            None => PyPiConfig { account: String::from_str("default") },
        }
    }

    /// The account name.
    pub fn account(&self) -> (r: &str)
        ensures
            r@ == self.spec_account(),
    {
        self.account.as_str()
    }

    /// The key under which this account's token is filed in the secret
    /// store: the fixed prefix `pypi-token-` followed by the account name.
    pub fn storage_key(&self) -> (r: String)
        ensures
            r@ == "pypi-token-"@ + self.spec_account(),
    {
        let mut key = String::from_str("pypi-token-");
        key.append(self.account.as_str());
        key
    }

    /// Reads this account's token from the operating system's secret store.
    /// The result is an outcome of the store: a token if one is filed under
    /// this account's key, an error otherwise; nothing more is promised.
    pub fn get_token(&self) -> Result<String, StoreError> {
        let key = self.storage_key();
        let entry = match entry_new(service_name(), key.as_str()) {
            Ok(e) => e,
            Err(e) => return Err(StoreError { message: keyring_error_message(&e) }),
        };
        match entry_get_password(&entry) {
            Ok(token) => Ok(token),
            Err(e) => Err(StoreError { message: keyring_error_message(&e) }),
        }
    }

    /// Files the token in the operating system's secret store under this
    /// account's key, replacing any prior value.
    pub fn save_token(&self, token: &str) -> Result<(), StoreError> {
        let key = self.storage_key();
        let entry = match entry_new(service_name(), key.as_str()) {
            Ok(e) => e,
            Err(e) => return Err(StoreError { message: keyring_error_message(&e) }),
        };
        match entry_set_password(&entry, token) {
            Ok(u) => Ok(u),
            Err(e) => Err(StoreError { message: keyring_error_message(&e) }),
        }
    }
}

// ---------------------------------------------------------------------------
// The retrieval protocol, verified over an explicit store model
// ---------------------------------------------------------------------------

/// A store of tokens keyed by account key: the model over which the
/// retrieval protocol is stated and proved, and a drop-in stand-in for the
/// secret store wherever one is wanted.
pub struct TokenStore {
    entries: Vec<(String, String)>,
}

/// The map a listing of key/token pairs denotes, later pairs overriding
/// earlier ones.
pub closed spec fn map_of(entries: Seq<(String, String)>) -> Map<Seq<char>, Seq<char>>
    decreases entries.len(),
{
    if entries.len() == 0 {
        Map::empty()
    } else {
        map_of(entries.drop_last()).insert(entries.last().0@, entries.last().1@)
    }
}

impl View for TokenStore {
    type V = Map<Seq<char>, Seq<char>>;

    closed spec fn view(&self) -> Map<Seq<char>, Seq<char>> {
        map_of(self.entries@)
    }
}

/// If no pair at or after position `i` has the key, the denoted map agrees
/// at that key with the map of the first `i` pairs.
proof fn lemma_map_of_prefix(entries: Seq<(String, String)>, key: Seq<char>, i: int)
    requires
        0 <= i <= entries.len(),
        forall|j: int| i <= j < entries.len() ==> (#[trigger] entries[j].0)@ != key,
    ensures
        map_of(entries).contains_key(key) == map_of(entries.take(i)).contains_key(key),
        map_of(entries).contains_key(key) ==> map_of(entries)[key] == map_of(entries.take(i))[key],
    decreases entries.len() - i,
{
    if i < entries.len() {
        lemma_map_of_prefix(entries.drop_last(), key, i);
        assert(entries.drop_last().take(i) =~= entries.take(i));
    } else {
        assert(entries.take(i) =~= entries);
    }
}

impl TokenStore {
    /// An empty store.
    pub fn new() -> (r: TokenStore)
        ensures
            r@ == Map::<Seq<char>, Seq<char>>::empty(),
    {
        TokenStore { entries: Vec::new() }
    }

    /// The token filed under the key, if any.
    pub fn lookup(&self, key: &str) -> (r: Option<String>)
        ensures
            r matches Some(token) ==> self@.contains_key(key@) && token@ == self@[key@],
            r is None ==> !self@.contains_key(key@),
    {
        let mut i = self.entries.len();
        while i > 0
            invariant
                0 <= i <= self.entries@.len(),
                forall|j: int|
                    i <= j < self.entries@.len() ==> (#[trigger] self.entries@[j].0)@ != key@,
            decreases i,
        {
            i = i - 1;
            if str_eq(self.entries[i].0.as_str(), key) {
                proof {
                    let taken = self.entries@.take(i + 1);
                    assert(taken.drop_last() =~= self.entries@.take(i as int));
                    assert(taken.last() == self.entries@[i as int]);
                    lemma_map_of_prefix(self.entries@, key@, i + 1);
                }
                return Some(self.entries[i].1.clone());
            }
        }
        proof {
            lemma_map_of_prefix(self.entries@, key@, 0);
            assert(self.entries@.take(0) =~= Seq::<(String, String)>::empty());
        }
        None
    }

    /// Files the token under the key, replacing any prior value.
    pub fn store(&mut self, key: &str, token: &str)
        ensures
            final (self)@ == old(self)@.insert(key@, token@),
    {
        self.entries.push((String::from_str(key), String::from_str(token)));
        proof {
            assert(self.entries@.drop_last() =~= old(self).entries@);
        }
    }
}

/// Whether retrieval takes the interactive path: always under the override
/// flag, otherwise exactly when no token is filed under the key.
pub open spec fn spec_prompt_needed(
    store: Map<Seq<char>, Seq<char>>,
    key: Seq<char>,
    override_token: bool,
) -> bool {
    override_token || !store.contains_key(key)
}

/// The store after retrieval: the entered token is filed under the key when
/// the interactive path was taken, and the store is untouched otherwise.
pub open spec fn spec_store_after(
    store: Map<Seq<char>, Seq<char>>,
    key: Seq<char>,
    override_token: bool,
    entered: Seq<char>,
) -> Map<Seq<char>, Seq<char>> {
    if spec_prompt_needed(store, key, override_token) {
        store.insert(key, entered)
    } else {
        store
    }
}

/// The token retrieval hands back: what was entered when the interactive
/// path was taken, the filed token otherwise.
pub open spec fn spec_token_out(
    store: Map<Seq<char>, Seq<char>>,
    key: Seq<char>,
    override_token: bool,
    entered: Seq<char>,
) -> Seq<char> {
    if spec_prompt_needed(store, key, override_token) {
        entered
    } else {
        store[key]
    }
}

/// Retrieves the token for `key` from the store: a filed token is returned
/// as is; on a miss, or unconditionally under `override_token`, the
/// interactive path is taken — `entered` stands for what the user enters —
/// and the entered token is persisted before it is returned. The second
/// component reports whether the interactive path was taken.
pub fn get_or_prompt(store: &mut TokenStore, key: &str, override_token: bool, entered: &str) -> (r:
    (String, bool))
    ensures
        r.1 == spec_prompt_needed(old(store)@, key@, override_token),
        final (store)@ == spec_store_after(old(store)@, key@, override_token, entered@),
        r.0@ == spec_token_out(old(store)@, key@, override_token, entered@),
{
    if !override_token {
        if let Some(token) = store.lookup(key) {
            return (token, false);
        }
    }
    store.store(key, entered);
    (String::from_str(entered), true)
}

/// A first-time account prompts exactly once: with no token filed under the
/// key, retrieval takes the interactive path, hands back the entered token,
/// and persists it, so that an immediately following retrieval for the same
/// key takes no interactive path and hands back that token — whatever would
/// be entered the second time, and the store is left as it was.
pub proof fn lemma_first_retrieval_prompts_once(
    store: Map<Seq<char>, Seq<char>>,
    key: Seq<char>,
    entered: Seq<char>,
    entered_later: Seq<char>,
)
    requires
        !store.contains_key(key),
    ensures
        spec_prompt_needed(store, key, false),
        spec_token_out(store, key, false, entered) == entered,
        ({
            let after = spec_store_after(store, key, false, entered);
            &&& after[key] == entered
            &&& !spec_prompt_needed(after, key, false)
            &&& spec_token_out(after, key, false, entered_later) == entered
            &&& spec_store_after(after, key, false, entered_later) == after
        }),
{
}

/// The override flag always takes the interactive path, even when a token
/// is already filed, and the entered token overwrites the prior value.
pub proof fn lemma_override_always_prompts(
    store: Map<Seq<char>, Seq<char>>,
    key: Seq<char>,
    entered: Seq<char>,
)
    ensures
        spec_prompt_needed(store, key, true),
        spec_token_out(store, key, true, entered) == entered,
        spec_store_after(store, key, true, entered).contains_key(key),
        spec_store_after(store, key, true, entered)[key] == entered,
{
}

} // verus!
