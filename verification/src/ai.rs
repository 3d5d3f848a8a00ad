//! Profiles of chat-completion endpoints, and the decisions made around the
//! secure key store and the endpoint's answers.

use vstd::prelude::*;
use vstd::string::StringExecFns;

pub mod context;

verus! {

/// The service under which profile keys are kept in the secure store.
pub const SERVICE_NAME: &'static str = "my-league-guider";

/// The file that holds the profile list.
pub const PROFILES_FILENAME: &'static str = "ai_profiles.json";

/// One configured endpoint.
#[derive(Debug, Clone, PartialEq, Eq)]
pub struct AiProfile {
    pub id: String,
    pub name: String,
    pub endpoint: String,
    pub model: String,
}

#[derive(Debug, Clone, PartialEq, Eq)]
pub struct ChatMessage {
    pub role: String,
    pub content: String,
}

#[derive(Debug, Clone, PartialEq, Eq)]
pub struct ChatCompletionChoice {
    pub index: i32,
    pub message: ChatMessage,
    pub finish_reason: Option<String>,
}

#[derive(Debug, Clone, PartialEq, Eq)]
pub struct ChatCompletionResponse {
    pub id: String,
    pub object: String,
    pub created: i64,
    pub choices: Vec<ChatCompletionChoice>,
}

/// What saving a profile does about its key.
#[derive(Debug, Clone, PartialEq, Eq)]
pub enum KeyStep {
    /// Write this key to the secure store and read it back.
    Store(String),
    /// Leave the store alone and warn: a new profile comes without a key.
    WarnMissing,
    /// Leave the store alone: a known profile keeps the key it has.
    Keep,
}

/// Whether a character is white space: one of the code points with the
/// Unicode property White_Space.
pub open spec fn is_white_space(c: char) -> bool {
    let n = c as u32;
    (0x09 <= n <= 0x0D) || n == 0x20 || n == 0x85 || n == 0xA0 || n == 0x1680 || (0x2000 <= n
        <= 0x200A) || n == 0x2028 || n == 0x2029 || n == 0x202F || n == 0x205F || n == 0x3000
}

/// The text from its first character that is no white space on.
pub open spec fn without_leading_space(text: Seq<char>) -> Seq<char>
    decreases text.len(),
{
    if text.len() > 0 && is_white_space(text.first()) {
        without_leading_space(text.drop_first())
    } else {
        text
    }
}

/// The text up to its last character that is no white space.
pub open spec fn without_trailing_space(text: Seq<char>) -> Seq<char>
    decreases text.len(),
{
    if text.len() > 0 && is_white_space(text.last()) {
        without_trailing_space(text.drop_last())
    } else {
        text
    }
}

/// The text without the white space at its two ends.
pub open spec fn trimmed(text: Seq<char>) -> Seq<char> {
    without_trailing_space(without_leading_space(text))
}

/// Calls `str::trim`. Trusted: the result is the text without the leading
/// and trailing characters that have the Unicode property White_Space, as
/// [`trimmed`] states it.
#[verifier::external_body]
fn trim_text(text: &str) -> (r: String)
    ensures
        r@ == trimmed(text@),
{
    text.trim().to_string()
}

/// What saving a profile does about a key that has been cleaned of the white
/// space around it: a key that is not empty is stored, and an empty one
/// leaves the store alone, with a warning where the profile is new.
pub open spec fn step_for(clean: Seq<char>, is_new: bool, step: KeyStep) -> bool {
    match step {
        KeyStep::Store(key) => key@ == clean && clean.len() > 0,
        KeyStep::WarnMissing => clean.len() == 0 && is_new,
        KeyStep::Keep => clean.len() == 0 && !is_new,
    }
}

/// Decides what saving a profile does about its key, given the key without
/// the white space around it.
pub fn key_step_of(clean: String, is_new: bool) -> (r: KeyStep)
    ensures
        step_for(clean@, is_new, r),
{
    if !clean.as_str().is_empty() {
        KeyStep::Store(clean)
    } else if is_new {
        KeyStep::WarnMissing
    } else {
        KeyStep::Keep
    }
}

/// Decides what saving a profile does about the key that came with it. The
/// key counts without the white space around it, which copying tends to add.
pub fn key_step(api_key: &str, is_new: bool) -> (r: KeyStep)
    ensures
        step_for(trimmed(api_key@), is_new, r),
{
    key_step_of(trim_text(api_key), is_new)
}

/// What looking a profile's key up in the secure store came to.
#[derive(Debug, Clone, PartialEq, Eq)]
pub enum KeyLookup {
    Found(String),
    /// The store holds no key for the profile.
    NoEntry,
    /// The store holds several keys for the profile.
    Ambiguous,
    /// The store failed; carries its explanation.
    Failed(String),
}

/// The first position at or after `from` of a profile with this id.
pub open spec fn position_of(profiles: Seq<AiProfile>, id: Seq<char>, from: int) -> Option<int>
    decreases profiles.len() - from,
{
    if from < 0 || from >= profiles.len() {
        None
    } else if profiles[from].id@ == id {
        Some(from)
    } else {
        position_of(profiles, id, from + 1)
    }
}

/// The list after saving `profile`: it takes the place of the first profile
/// with its id, or goes to the end where there is none.
pub open spec fn saved(profiles: Seq<AiProfile>, profile: AiProfile) -> Seq<AiProfile> {
    match position_of(profiles, profile.id@, 0) {
        Some(at) => profiles.update(at, profile),
        None => profiles.push(profile),
    }
}

/// Whether the list holds no profile with this id yet.
pub fn is_new_profile(profiles: &Vec<AiProfile>, id: &String) -> (r: bool)
    ensures
        r == (position_of(profiles@, id@, 0) is None),
{
    find_profile(profiles, id).is_none()
}

/// The first position of a profile with this id.
pub fn find_profile(profiles: &Vec<AiProfile>, id: &String) -> (r: Option<usize>)
    ensures
        match r {
            Some(at) => position_of(profiles@, id@, 0) == Some(at as int) && at < profiles@.len(),
            None => position_of(profiles@, id@, 0) is None,
        },
{
    let mut i: usize = 0;
    while i < profiles.len()
        invariant
            i <= profiles@.len(),
            position_of(profiles@, id@, 0) == position_of(profiles@, id@, i as int),
        decreases profiles@.len() - i,
    {
        if profiles[i].id == *id {
            return Some(i);
        }
        i += 1;
    }
    None
}

/// Saves `profile` into the list: in place of the one with its id, else at
/// the end.
pub fn upsert_profile(profiles: &mut Vec<AiProfile>, profile: AiProfile)
    ensures
        final(profiles)@ == saved(old(profiles)@, profile),
{
    match find_profile(profiles, &profile.id) {
        Some(at) => {
            profiles[at] = profile;
        },
        None => {
            profiles.push(profile);
        },
    }
}

/// The list without the profiles that have this id, the others in order.
pub fn remove_profile(profiles: Vec<AiProfile>, id: &String) -> (kept: Vec<AiProfile>)
    ensures
        kept@ == profiles@.filter(|p: AiProfile| p.id@ != id@),
{
    let ghost all = profiles@;
    let ghost stays = |p: AiProfile| p.id@ != id@;
    let mut rest = profiles;
    let mut kept: Vec<AiProfile> = Vec::new();
    let ghost mut seen: int = 0;
    assert(all.take(0) =~= Seq::<AiProfile>::empty());
    assert(all.skip(0) =~= all);
    while rest.len() > 0
        invariant
            0 <= seen <= all.len(),
            rest@ == all.skip(seen),
            kept@ == all.take(seen).filter(stays),
            stays == |p: AiProfile| p.id@ != id@,
        decreases rest@.len(),
    {
        let profile = rest.remove(0);
        proof {
            assert(profile == all[seen]);
            assert(rest@ =~= all.skip(seen + 1));
            assert(all.take(seen + 1) =~= all.take(seen).push(profile));
            all.take(seen).lemma_filter_push(profile, stays);
            seen = seen + 1;
        }
        if profile.id != *id {
            kept.push(profile);
        }
    }
    assert(all.take(seen) =~= all);
    kept
}

/// What a key that was just written must read back as: itself. Anything
/// else, or a failing read, is reported in words.
pub open spec fn verified_key(expected: Seq<char>, read_back: Result<String, String>) -> Result<
    (),
    Seq<char>,
> {
    match read_back {
        Ok(stored) => if stored@ == expected {
            Ok(())
        } else {
            Err("Secure storage data mismatch (saved vs read)."@)
        },
        Err(cause) => Err(
            "Secure storage verification failed. The OS did not persist the key: "@ + cause@,
        ),
    }
}

/// A unit or a message, with the message as characters.
pub open spec fn unit_or_text(r: Result<(), String>) -> Result<(), Seq<char>> {
    match r {
        Ok(_) => Ok(()),
        Err(message) => Err(message@),
    }
}

/// A string or a message, both as characters.
pub open spec fn text_or_text(r: Result<String, String>) -> Result<Seq<char>, Seq<char>> {
    match r {
        Ok(text) => Ok(text@),
        Err(message) => Err(message@),
    }
}

/// Checks that the secure store gave back the key that was written to it.
pub fn verify_stored_key(expected: &String, read_back: Result<String, String>) -> (r: Result<
    (),
    String,
>)
    ensures
        unit_or_text(r) == verified_key(expected@, read_back),
{
    match read_back {
        Ok(stored) => {
            if stored == *expected {
                Ok(())
            } else {
                Err(String::from_str("Secure storage data mismatch (saved vs read)."))
            }
        },
        Err(cause) => {
            let mut message = String::from_str(
                "Secure storage verification failed. The OS did not persist the key: ",
            );
            message.append(cause.as_str());
            Err(message)
        },
    }
}

/// The key to send, or why there is none to send.
pub open spec fn usable_key(lookup: KeyLookup) -> Result<Seq<char>, Seq<char>> {
    match lookup {
        KeyLookup::Found(key) => Ok(key@),
        KeyLookup::NoEntry => Err(
            "API Key not found in storage. Please Edit the profile and re-enter the key."@,
        ),
        KeyLookup::Ambiguous => Err("Multiple keys found for this ID. Storage is ambiguous."@),
        KeyLookup::Failed(cause) => Err("OS Secure Storage Error: "@ + cause@),
    }
}

/// Turns the outcome of a key lookup into the key or a message for the user.
pub fn key_or_message(lookup: KeyLookup) -> (r: Result<String, String>)
    ensures
        text_or_text(r) == usable_key(lookup),
{
    match lookup {
        KeyLookup::Found(key) => Ok(key),
        KeyLookup::NoEntry => Err(
            String::from_str(
                "API Key not found in storage. Please Edit the profile and re-enter the key.",
            ),
        ),
        KeyLookup::Ambiguous => Err(
            String::from_str("Multiple keys found for this ID. Storage is ambiguous."),
        ),
        KeyLookup::Failed(cause) => {
            let mut message = String::from_str("OS Secure Storage Error: ");
            message.append(cause.as_str());
            Err(message)
        },
    }
}

/// The value of the authorisation header for a key.
pub fn bearer(key: &str) -> (r: String)
    ensures
        r@ == "Bearer "@ + key@,
{
    let mut value = String::from_str("Bearer ");
    value.append(key);
    value
}

/// What an answer of the endpoint comes to: its body where the endpoint
/// marked it as a success, and else the error message made of the body.
/// `None` stands for a body that could not be read.
pub fn check_response(success: bool, body: Option<String>) -> (r: Result<Option<String>, String>)
    ensures
        match r {
            Ok(kept) => success && kept == body,
            Err(message) => !success && message@ == "API Error: "@ + (match body {
                Some(text) => text@,
                None => "Unknown error"@,
            }),
        },
{
    if success {
        Ok(body)
    } else {
        Err(api_error_message(body))
    }
}

/// The message for an answer that the endpoint marked as a failure; `None`
/// stands for a body that could not be read.
pub fn api_error_message(body: Option<String>) -> (r: String)
    ensures
        r@ == "API Error: "@ + (match body {
            Some(text) => text@,
            None => "Unknown error"@,
        }),
{
    let mut message = String::from_str("API Error: ");
    match body {
        Some(text) => message.append(text.as_str()),
        None => message.append("Unknown error"),
    }
    message
}

} // verus!
