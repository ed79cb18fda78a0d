//! Lifecycle operations: the decisions that create, restore and tear down
//! the engine handle. The engine's own construction, disk probing and
//! watcher start happen outside; each operation here takes what that layer
//! reported, installs the handle on success, and shapes the status text.
//! Every installed handle must already have its mempool watcher running,
//! so a dispatch immediately after initialization sees unconfirmed
//! activity.
use vstd::prelude::*;
use vstd::string::StrSliceExecFns;
use vstd::string::StringExecFns;

use crate::registry::EngineHandle;
use crate::registry::Registry;
use crate::text::dec_digits;
use crate::text::error_text;
use crate::text::error_text_spec;
use crate::text::str_eq;
use crate::text::u64_to_dec;

verus! {

/// The scan anchor for a freshly created wallet: one hundred blocks below
/// the chain tip, so blocks still subject to shallow reorganization are
/// re-scanned rather than trusted as final.
pub open spec fn anchor_height_spec(latest_block_height: u64) -> u64 {
    if latest_block_height >= 100 {
        (latest_block_height - 100) as u64
    } else {
        0u64
    }
}

/// Computes the creation birthday from the observed chain height.
pub fn anchor_height(latest_block_height: u64) -> (r: u64)
    ensures
        r == anchor_height_spec(latest_block_height),
{
    if latest_block_height >= 100 {
        latest_block_height - 100
    } else {
        0
    }
}

/// Whether a restore must first remove the wallet file already on disk:
/// exactly when the caller asked to overwrite and a file exists.
/// Construction with overwrite semantics never silently merges with
/// stale state.
pub fn should_remove_existing(overwrite: bool, wallet_exists: bool) -> (r: bool)
    ensures
        r == (overwrite && wallet_exists),
{
    overwrite && wallet_exists
}

/// Clears the registry slot. Idempotent: clearing an empty slot is not
/// an error.
pub fn deinitialize(registry: &mut Registry) -> (r: String)
    ensures
        final(registry).spec_slot() is None,
        final(registry).wf(),
        r@ == "OK"@,
{
    registry.clear();
    String::from_str("OK")
}

/// The marker that opens the seed value inside the engine's seed response.
pub open spec fn seed_marker() -> Seq<char> {
    "\"seed\":\""@
}

/// The first position at or after `i` where the seed marker occurs.
pub open spec fn first_marker_at(s: Seq<char>, i: int) -> Option<int>
    decreases s.len() - i,
{
    if i < 0 || i >= s.len() || i + seed_marker().len() > s.len() {
        Option::None
    } else if s.subrange(i, i + seed_marker().len() as int) == seed_marker() {
        Option::Some(i)
    } else {
        first_marker_at(s, i + 1)
    }
}

/// The first unescaped double quote at or after `i`, where a backslash
/// escapes the character after it.
pub open spec fn close_quote_at(s: Seq<char>, i: int, escaped: bool) -> Option<int>
    decreases s.len() - i,
{
    if i < 0 || i >= s.len() {
        Option::None
    } else if escaped {
        close_quote_at(s, i + 1, false)
    } else if s[i] == '\\' {
        close_quote_at(s, i + 1, true)
    } else if s[i] == '"' {
        Option::Some(i)
    } else {
        close_quote_at(s, i + 1, false)
    }
}

/// The seed phrase inside the engine's seed response: the text between
/// the seed marker and the next unescaped quote. When the marker is
/// missing, the closing quote is missing, or the value is empty, the
/// whole response stands as it came.
pub open spec fn extract_seed_spec(s: Seq<char>) -> Seq<char> {
    match first_marker_at(s, 0) {
        Option::None => s,
        Option::Some(m) => {
            let start = m + seed_marker().len() as int;
            match close_quote_at(s, start, false) {
                Option::None => s,
                Option::Some(e) => if e > start {
                    s.subrange(start, e)
                } else {
                    s
                },
            }
        },
    }
}

proof fn lemma_first_marker_bounds(s: Seq<char>, i: int, j: int)
    requires
        0 <= i,
        first_marker_at(s, i) == Option::Some(j),
    ensures
        i <= j,
        j + seed_marker().len() <= s.len(),
    decreases s.len() - i,
{
    if i >= s.len() || i + seed_marker().len() > s.len() {
    } else if s.subrange(i, i + seed_marker().len() as int) == seed_marker() {
    } else {
        lemma_first_marker_bounds(s, i + 1, j);
    }
}

proof fn lemma_close_quote_bounds(s: Seq<char>, i: int, escaped: bool, j: int)
    requires
        0 <= i,
        close_quote_at(s, i, escaped) == Option::Some(j),
    ensures
        i <= j < s.len(),
    decreases s.len() - i,
{
    if i >= s.len() {
    } else if escaped {
        lemma_close_quote_bounds(s, i + 1, false, j);
    } else if s[i] == '\\' {
        lemma_close_quote_bounds(s, i + 1, true, j);
    } else if s[i] == '"' {
    } else {
        lemma_close_quote_bounds(s, i + 1, false, j);
    }
}

fn find_seed_marker(s: &str) -> (r: Option<usize>)
    ensures
        match r {
            Option::Some(m) => first_marker_at(s@, 0) == Option::Some(m as int),
            Option::None => first_marker_at(s@, 0) is None,
        },
{
    proof {
        reveal_strlit("\"seed\":\"");
    }
    let n = s.unicode_len();
    if n < 8 {
        return None;
    }
    let mut i: usize = 0;
    while i <= n - 8
        invariant
            8 <= n,
            i <= n - 8 + 1,
            n == s@.len(),
            seed_marker().len() == 8,
            first_marker_at(s@, 0) == first_marker_at(s@, i as int),
        decreases n - i,
    {
        let window = s.substring_char(i, i + 8);
        if str_eq(window, "\"seed\":\"") {
            proof {
                assert(s@.subrange(i as int, i + 8) == seed_marker());
            }
            return Some(i);
        }
        proof {
            assert(first_marker_at(s@, i as int) == first_marker_at(s@, i + 1));
        }
        i += 1;
    }
    proof {
        assert(first_marker_at(s@, i as int) is None);
    }
    None
}

fn find_close_quote(s: &str, start: usize) -> (r: Option<usize>)
    requires
        start <= s@.len(),
    ensures
        match r {
            Option::Some(e) => close_quote_at(s@, start as int, false) == Option::Some(e as int),
            Option::None => close_quote_at(s@, start as int, false) is None,
        },
{
    let n = s.unicode_len();
    let mut i = start;
    let mut escaped = false;
    while i < n
        invariant
            i <= n,
            n == s@.len(),
            close_quote_at(s@, start as int, false) == close_quote_at(s@, i as int, escaped),
        decreases n - i,
    {
        let c = s.get_char(i);
        if escaped {
            escaped = false;
        } else if c == '\\' {
            escaped = true;
        } else if c == '"' {
            return Some(i);
        }
        i += 1;
    }
    None
}

/// Pulls the seed phrase out of the engine's seed response, honoring
/// escaped quotes inside the value.
pub fn extract_seed(response: &str) -> (r: String)
    ensures
        r@ == extract_seed_spec(response@),
{
    let n = response.unicode_len();
    match find_seed_marker(response) {
        Option::None => String::from_str(response),
        Option::Some(m) => {
            proof {
                reveal_strlit("\"seed\":\"");
                lemma_first_marker_bounds(response@, 0, m as int);
            }
            let start = m + 8;
            match find_close_quote(response, start) {
                Option::None => String::from_str(response),
                Option::Some(e) => {
                    if e > start {
                        proof {
                            lemma_close_quote_bounds(response@, start as int, false, e as int);
                        }
                        let seed = response.substring_char(start, e);
                        String::from_str(seed)
                    } else {
                        String::from_str(response)
                    }
                },
            }
        },
    }
}

/// What the engine layer reported when loading an existing wallet from
/// disk.
pub enum LoadOutcome {
    /// Resolving the server address or on-disk directory failed.
    ConfigError { message: String },
    /// No wallet file exists at this (already rendered) path.
    Missing { wallet_path: String },
    /// The wallet file exists but could not be read.
    ReadError { message: String },
    /// The wallet was read and the engine constructed around it.
    Loaded { handle: EngineHandle },
}

/// The status body of a restore-from-disk: `{"status": "OK", ...}` with
/// the advisory birthday echoed back, or the descriptive error text.
pub open spec fn existing_status_spec(outcome: LoadOutcome, birthday: u64) -> Seq<char> {
    match outcome {
        LoadOutcome::ConfigError { message } => error_text_spec(message@),
        LoadOutcome::Missing { wallet_path } => error_text_spec(
            "Wallet file not found at: "@ + wallet_path@,
        ),
        LoadOutcome::ReadError { message } => error_text_spec(
            "Could not read wallet file: "@ + message@,
        ),
        LoadOutcome::Loaded { handle } => "{\"status\": \"OK\", \"birthday\": "@ + dec_digits(
            birthday as nat,
        ) + "}"@,
    }
}

/// Restores from an existing wallet file. The birthday is advisory only:
/// the engine honors whatever birthday the file persisted, and this
/// operation never alters persisted state. A missing or unreadable file
/// is a descriptive error, never a panic, and leaves the registry as it
/// was.
pub fn initialize_existing_with_birthday(
    registry: &mut Registry,
    outcome: LoadOutcome,
    birthday: u64,
) -> (r: String)
    requires
        outcome matches LoadOutcome::Loaded { handle } ==> handle.watcher_started,
    ensures
        r@ == existing_status_spec(outcome, birthday),
        outcome matches LoadOutcome::Loaded { handle } ==> final(registry).spec_slot()
            == Some(handle),
        !(outcome is Loaded) ==> final(registry).spec_slot() == old(registry).spec_slot(),
        old(registry).wf() ==> final(registry).wf(),
{
    match outcome {
        LoadOutcome::ConfigError { message } => error_text(message.as_str()),
        LoadOutcome::Missing { wallet_path } => {
            let mut detail = String::from_str("Wallet file not found at: ");
            detail.append(wallet_path.as_str());
            let r = error_text(detail.as_str());
            proof {
                assert(r@ =~= error_text_spec("Wallet file not found at: "@ + wallet_path@));
            }
            r
        },
        LoadOutcome::ReadError { message } => {
            let mut detail = String::from_str("Could not read wallet file: ");
            detail.append(message.as_str());
            let r = error_text(detail.as_str());
            proof {
                assert(r@ =~= error_text_spec("Could not read wallet file: "@ + message@));
            }
            r
        },
        LoadOutcome::Loaded { handle } => {
            registry.set(Some(handle));
            let mut r = String::from_str("{\"status\": \"OK\", \"birthday\": ");
            let digits = u64_to_dec(birthday);
            r.append(digits.as_str());
            r.append("}");
            proof {
                assert(r@ =~= "{\"status\": \"OK\", \"birthday\": "@ + dec_digits(birthday as nat)
                    + "}"@);
            }
            r
        },
    }
}

/// Restores from an existing wallet file with no explicit birthday.
pub fn initialize_existing(registry: &mut Registry, outcome: LoadOutcome) -> (r: String)
    requires
        outcome matches LoadOutcome::Loaded { handle } ==> handle.watcher_started,
    ensures
        r@ == existing_status_spec(outcome, 0),
        outcome matches LoadOutcome::Loaded { handle } ==> final(registry).spec_slot()
            == Some(handle),
        !(outcome is Loaded) ==> final(registry).spec_slot() == old(registry).spec_slot(),
        old(registry).wf() ==> final(registry).wf(),
{
    initialize_existing_with_birthday(registry, outcome, 0)
}

/// What the engine layer reported when building an engine from a
/// recovery phrase.
pub enum PhraseOutcome {
    /// Resolving the server address or on-disk directory failed.
    ConfigError { message: String },
    /// Engine construction from the phrase failed.
    BuildError { message: String },
    /// The engine was built, anchored at the requested birthday.
    Built { handle: EngineHandle },
}

/// The status text of a restore-from-phrase.
pub open spec fn phrase_status_spec(outcome: PhraseOutcome) -> Seq<char> {
    match outcome {
        PhraseOutcome::ConfigError { message } => error_text_spec(message@),
        PhraseOutcome::BuildError { message } => error_text_spec(message@),
        PhraseOutcome::Built { handle } => "OK"@,
    }
}

/// Restores from a recovery phrase. When the caller asked to overwrite,
/// the wallet file already on disk was removed before construction (see
/// `should_remove_existing`), so nothing of the old wallet's material
/// reaches the new engine instance.
pub fn initialize_from_phrase(registry: &mut Registry, outcome: PhraseOutcome) -> (r: String)
    requires
        outcome matches PhraseOutcome::Built { handle } ==> handle.watcher_started,
    ensures
        r@ == phrase_status_spec(outcome),
        outcome matches PhraseOutcome::Built { handle } ==> final(registry).spec_slot()
            == Some(handle),
        !(outcome is Built) ==> final(registry).spec_slot() == old(registry).spec_slot(),
        old(registry).wf() ==> final(registry).wf(),
{
    match outcome {
        PhraseOutcome::ConfigError { message } => error_text(message.as_str()),
        PhraseOutcome::BuildError { message } => error_text(message.as_str()),
        PhraseOutcome::Built { handle } => {
            registry.set(Some(handle));
            String::from_str("OK")
        },
    }
}

/// Restores from a recovery phrase with the simplified defaults: the
/// default directory, a zero birthday, and overwrite allowed.
pub fn initialize_from_phrase_simple(registry: &mut Registry, outcome: PhraseOutcome) -> (r:
    String)
    requires
        outcome matches PhraseOutcome::Built { handle } ==> handle.watcher_started,
    ensures
        r@ == phrase_status_spec(outcome),
        outcome matches PhraseOutcome::Built { handle } ==> final(registry).spec_slot()
            == Some(handle),
        !(outcome is Built) ==> final(registry).spec_slot() == old(registry).spec_slot(),
        old(registry).wf() ==> final(registry).wf(),
{
    initialize_from_phrase(registry, outcome)
}

/// What the engine layer reported when creating a brand-new wallet.
pub enum CreateOutcome {
    /// Resolving the server address or on-disk directory failed.
    ConfigError { message: String },
    /// Engine construction failed.
    BuildError { message: String },
    /// The engine exists but its recovery phrase could not be read.
    SeedError { message: String },
    /// The engine was built; `seed_response` is the engine's seed text.
    Created { handle: EngineHandle, seed_response: String },
}

/// The result of creating a new wallet: the engine's seed response as it
/// came, or the error text.
pub open spec fn create_status_spec(outcome: CreateOutcome) -> Seq<char> {
    match outcome {
        CreateOutcome::ConfigError { message } => error_text_spec(message@),
        CreateOutcome::BuildError { message } => error_text_spec(message@),
        CreateOutcome::SeedError { message } => error_text_spec(message@),
        CreateOutcome::Created { handle, seed_response } => seed_response@,
    }
}

/// Creates a brand-new wallet and returns its recovery phrase text.
pub fn initialize_new(registry: &mut Registry, outcome: CreateOutcome) -> (r: String)
    requires
        outcome matches CreateOutcome::Created { handle, .. } ==> handle.watcher_started,
    ensures
        r@ == create_status_spec(outcome),
        outcome matches CreateOutcome::Created { handle, .. } ==> final(registry).spec_slot()
            == Some(handle),
        !(outcome is Created) ==> final(registry).spec_slot() == old(registry).spec_slot(),
        old(registry).wf() ==> final(registry).wf(),
{
    match outcome {
        CreateOutcome::ConfigError { message } => error_text(message.as_str()),
        CreateOutcome::BuildError { message } => error_text(message.as_str()),
        CreateOutcome::SeedError { message } => error_text(message.as_str()),
        CreateOutcome::Created { handle, seed_response } => {
            registry.set(Some(handle));
            seed_response
        },
    }
}

/// The result object of creating a new wallet with its context: the
/// extracted seed phrase, the chosen birthday and the observed chain
/// height.
pub open spec fn seed_info_spec(seed: Seq<char>, birthday: u64, latest: u64) -> Seq<char> {
    "{\"seed\": \""@ + seed + "\", \"birthday\": "@ + dec_digits(birthday as nat)
        + ", \"latest_block\": "@ + dec_digits(latest as nat) + "}"@
}

/// The status text of creating a new wallet with its context.
pub open spec fn create_info_status_spec(outcome: CreateOutcome, latest: u64) -> Seq<char> {
    match outcome {
        CreateOutcome::ConfigError { message } => error_text_spec(message@),
        CreateOutcome::BuildError { message } => error_text_spec(message@),
        CreateOutcome::SeedError { message } => error_text_spec(message@),
        CreateOutcome::Created { handle, seed_response } => seed_info_spec(
            extract_seed_spec(seed_response@),
            anchor_height_spec(latest),
            latest,
        ),
    }
}

/// Creates a brand-new wallet and returns the seed phrase together with
/// the chosen birthday and the observed chain height.
pub fn initialize_new_with_info(
    registry: &mut Registry,
    outcome: CreateOutcome,
    latest_block_height: u64,
) -> (r: String)
    requires
        outcome matches CreateOutcome::Created { handle, .. } ==> handle.watcher_started,
    ensures
        r@ == create_info_status_spec(outcome, latest_block_height),
        outcome matches CreateOutcome::Created { handle, .. } ==> final(registry).spec_slot()
            == Some(handle),
        !(outcome is Created) ==> final(registry).spec_slot() == old(registry).spec_slot(),
        old(registry).wf() ==> final(registry).wf(),
{
    match outcome {
        CreateOutcome::ConfigError { message } => error_text(message.as_str()),
        CreateOutcome::BuildError { message } => error_text(message.as_str()),
        CreateOutcome::SeedError { message } => error_text(message.as_str()),
        CreateOutcome::Created { handle, seed_response } => {
            registry.set(Some(handle));
            let birthday = anchor_height(latest_block_height);
            let seed = extract_seed(seed_response.as_str());
            let mut r = String::from_str("{\"seed\": \"");
            r.append(seed.as_str());
            r.append("\", \"birthday\": ");
            let birthday_digits = u64_to_dec(birthday);
            r.append(birthday_digits.as_str());
            r.append(", \"latest_block\": ");
            let latest_digits = u64_to_dec(latest_block_height);
            r.append(latest_digits.as_str());
            r.append("}");
            proof {
                assert(r@ =~= seed_info_spec(
                    extract_seed_spec(seed_response@),
                    anchor_height_spec(latest_block_height),
                    latest_block_height,
                ));
            }
            r
        },
    }
}

} // verus!
