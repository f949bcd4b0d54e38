//! Display names of validators, recovered from the raw accounts of the
//! chain's config program.
//!
//! An account of that program holds a list of keys followed by a string of
//! JSON. Where the list is not empty, its second key is the validator that
//! the account describes, and the JSON object holds the validator's display
//! name and its external-identity username.

use crate::keys::{find_last, last_index_of, Keyed, Pubkey};
use vstd::prelude::*;

verus! {

/// The field of the info object that holds the display name.
pub const NAME_FIELD: &'static str = "name";

/// The field of the info object that holds the external-identity username.
pub const KEYBASE_USERNAME_FIELD: &'static str = "keybaseUsername";

/// What a JSON object holds under one key.
#[derive(Debug, PartialEq, Eq)]
pub enum InfoField {
    /// The object has no such key.
    Absent,
    /// The key holds a string.
    Text(String),
    /// The key holds something that is no string.
    Other,
}

pub enum InfoFieldView {
    Absent,
    Text(Seq<char>),
    Other,
}

impl View for InfoField {
    type V = InfoFieldView;

    open spec fn view(&self) -> InfoFieldView {
        match self {
            InfoField::Absent => InfoFieldView::Absent,
            InfoField::Text(text) => InfoFieldView::Text(text@),
            InfoField::Other => InfoFieldView::Other,
        }
    }
}

impl DeepView for InfoField {
    type V = InfoFieldView;

    open spec fn deep_view(&self) -> InfoFieldView {
        self@
    }
}

/// The keys at the head of a config account's data, as `bincode` reads a
/// `solana_config_program::ConfigKeys` from it; `None` where it reads none.
pub uninterp spec fn config_keys(data: Seq<u8>) -> Option<Seq<Pubkey>>;

/// The bytes that follow the keys in a config account's data, as
/// `solana_config_program::get_config_data` returns them; `None` where it
/// fails.
pub uninterp spec fn config_payload(data: Seq<u8>) -> Option<Seq<u8>>;

/// The string that `bincode` reads from `bytes`; `None` where it reads none.
pub uninterp spec fn bincode_string(bytes: Seq<u8>) -> Option<Seq<char>>;

/// What the JSON object written in `json` holds under `key`, as `serde_json`
/// reads it; `None` where `json` is not a JSON object.
pub uninterp spec fn json_object_field(json: Seq<char>, key: Seq<char>) -> Option<InfoFieldView>;

/// Reads the key list of a config account with `bincode::deserialize` into
/// `solana_config_program::ConfigKeys` and hands out the keys without their
/// signer flags. The contract names the outcome `config_keys(data)`: it
/// depends on the bytes alone.
#[verifier::external_body]
fn decode_config_keys(data: &Vec<u8>) -> (keys: Option<Vec<Pubkey>>)
    ensures
        keys.deep_view() == config_keys(data@),
{
    let list = bincode::deserialize::<solana_config_program::ConfigKeys>(data.as_slice()).ok()?;
    Some(list.keys.iter().map(|entry| Pubkey { bytes: entry.0.to_bytes() }).collect())
}

/// Calls `solana_config_program::get_config_data` and copies the bytes it
/// returns. The contract names the outcome `config_payload(data)`.
#[verifier::external_body]
fn decode_config_payload(data: &Vec<u8>) -> (payload: Option<Vec<u8>>)
    ensures
        payload.deep_view() == config_payload(data@),
{
    let rest = solana_config_program::get_config_data(data.as_slice()).ok()?;
    Some(rest.to_vec())
}

/// Reads a string with `bincode::deserialize`. The contract names the
/// outcome `bincode_string(bytes)`.
#[verifier::external_body]
fn decode_string(bytes: &Vec<u8>) -> (text: Option<String>)
    ensures
        text.deep_view() == bincode_string(bytes@),
{
    bincode::deserialize::<String>(bytes.as_slice()).ok()
}

/// Parses `json` with `serde_json::from_str` as a JSON object and looks
/// `key` up in it. The contract names the outcome
/// `json_object_field(json, key)`; a string is handed out as it is, of any
/// other value only that it is no string.
#[verifier::external_body]
fn read_object_field(json: &str, key: &str) -> (field: Option<InfoField>)
    ensures
        field.deep_view() == json_object_field(json@, key@),
{
    let object = serde_json::from_str::<serde_json::Map<String, serde_json::Value>>(json).ok()?;
    Some(
        match object.get(key) {
            None => InfoField::Absent,
            Some(serde_json::Value::String(text)) => InfoField::Text(text.clone()),
            Some(_) => InfoField::Other,
        },
    )
}

/// What a config account says of one validator.
#[derive(Debug, PartialEq, Eq)]
pub struct ValidatorInfo {
    pub identity: Pubkey,
    pub name: InfoField,
    pub keybase_username: InfoField,
}

pub struct ValidatorInfoView {
    pub identity: Pubkey,
    pub name: InfoFieldView,
    pub keybase_username: InfoFieldView,
}

impl View for ValidatorInfo {
    type V = ValidatorInfoView;

    open spec fn view(&self) -> ValidatorInfoView {
        ValidatorInfoView {
            identity: self.identity,
            name: self.name@,
            keybase_username: self.keybase_username@,
        }
    }
}

impl DeepView for ValidatorInfo {
    type V = ValidatorInfoView;

    open spec fn deep_view(&self) -> ValidatorInfoView {
        self@
    }
}

impl Keyed for ValidatorInfo {
    open spec fn key_spec(&self) -> Pubkey {
        self.identity
    }

    fn key(&self) -> (k: Pubkey) {
        self.identity
    }
}

/// Why the accounts yield no names.
#[derive(Clone, Copy, Debug, PartialEq, Eq, Structural)]
pub enum NamesError {
    /// The account at this index does not start with a key list.
    UnreadableKeys { account: usize },
    /// The key list of the account at this index holds one key only, so
    /// none that names a validator.
    NoValidatorKey { account: usize },
    /// No string follows the key list of the account at this index.
    UnreadableInfo { account: usize },
    /// The string of the account at this index is not a JSON object.
    InfoNotAnObject { account: usize },
}

/// The validator that a key list names: the second key. An empty list names
/// none, and the account is passed over; a list of one key is an error.
pub open spec fn named_validator(keys: Seq<Pubkey>) -> Result<Option<Pubkey>, ()> {
    if keys.len() == 0 {
        Ok(None)
    } else if keys.len() == 1 {
        Err(())
    } else {
        Ok(Some(keys[1]))
    }
}

/// Picks the validator that a key list names.
pub fn validator_key(keys: &Vec<Pubkey>) -> (named: Result<Option<Pubkey>, ()>)
    ensures
        named == named_validator(keys@),
{
    if keys.len() == 0 {
        Ok(None)
    } else if keys.len() == 1 {
        Err(())
    } else {
        Ok(Some(keys[1]))
    }
}

/// What the account at index `account` with the bytes `data` yields: the
/// info of a validator, nothing, or an error.
pub open spec fn account_info(data: Seq<u8>, account: usize) -> Result<
    Option<ValidatorInfoView>,
    NamesError,
> {
    match config_keys(data) {
        None => Err(NamesError::UnreadableKeys { account }),
        Some(keys) => match named_validator(keys) {
            Err(_) => Err(NamesError::NoValidatorKey { account }),
            Ok(None) => Ok(None),
            Ok(Some(identity)) => match config_payload(data) {
                None => Err(NamesError::UnreadableInfo { account }),
                Some(payload) => match bincode_string(payload) {
                    None => Err(NamesError::UnreadableInfo { account }),
                    Some(json) => match (
                        json_object_field(json, NAME_FIELD@),
                        json_object_field(json, KEYBASE_USERNAME_FIELD@),
                    ) {
                        (Some(name), Some(keybase_username)) => Ok(
                            Some(ValidatorInfoView { identity, name, keybase_username }),
                        ),
                        _ => Err(NamesError::InfoNotAnObject { account }),
                    },
                },
            },
        },
    }
}

/// Decodes one config account.
pub fn decode_account(data: &Vec<u8>, account: usize) -> (decoded: Result<
    Option<ValidatorInfo>,
    NamesError,
>)
    ensures
        match decoded {
            Ok(info) => account_info(data@, account) == Ok::<Option<ValidatorInfoView>, NamesError>(
                info.deep_view(),
            ),
            Err(error) => account_info(data@, account) == Err::<
                Option<ValidatorInfoView>,
                NamesError,
            >(error),
        },
{
    let keys = match decode_config_keys(data) {
        Some(keys) => keys,
        None => {
            return Err(NamesError::UnreadableKeys { account });
        },
    };
    let identity = match validator_key(&keys) {
        Ok(Some(identity)) => identity,
        Ok(None) => {
            return Ok(None);
        },
        Err(_) => {
            return Err(NamesError::NoValidatorKey { account });
        },
    };
    let payload = match decode_config_payload(data) {
        Some(payload) => payload,
        None => {
            return Err(NamesError::UnreadableInfo { account });
        },
    };
    proof {
        assert(payload.deep_view() =~= payload@);
    }
    let json = match decode_string(&payload) {
        Some(json) => json,
        None => {
            return Err(NamesError::UnreadableInfo { account });
        },
    };
    let name = read_object_field(json.as_str(), NAME_FIELD);
    let keybase_username = read_object_field(json.as_str(), KEYBASE_USERNAME_FIELD);
    match (name, keybase_username) {
        (Some(name), Some(keybase_username)) => Ok(
            Some(ValidatorInfo { identity, name, keybase_username }),
        ),
        _ => Err(NamesError::InfoNotAnObject { account }),
    }
}

/// What the accounts yield, read in order: the infos of the accounts that
/// name a validator, or the error of the first account that cannot be read.
pub open spec fn accounts_info(accounts: Seq<Seq<u8>>) -> Result<
    Seq<ValidatorInfoView>,
    NamesError,
>
    decreases accounts.len(),
{
    if accounts.len() == 0 {
        Ok(Seq::empty())
    } else {
        match accounts_info(accounts.drop_last()) {
            Err(error) => Err(error),
            Ok(front) => match account_info(accounts.last(), (accounts.len() - 1) as usize) {
                Err(error) => Err(error),
                Ok(None) => Ok(front),
                Ok(Some(info)) => Ok(front.push(info)),
            },
        }
    }
}

/// Decodes the accounts of the config program into what they say of
/// validators. Of two accounts that name one validator the later counts
/// when the infos are searched.
pub fn get_validator_names(accounts: &Vec<Vec<u8>>) -> (names: Result<Vec<ValidatorInfo>, NamesError>)
    ensures
        match names {
            Ok(infos) => accounts_info(accounts.deep_view()) == Ok::<
                Seq<ValidatorInfoView>,
                NamesError,
            >(infos.deep_view()),
            Err(error) => accounts_info(accounts.deep_view()) == Err::<
                Seq<ValidatorInfoView>,
                NamesError,
            >(error),
        },
{
    let ghost all = accounts.deep_view();
    let mut infos: Vec<ValidatorInfo> = Vec::new();
    let mut i: usize = 0;
    proof {
        assert(infos.deep_view() =~= Seq::empty());
    }
    while i < accounts.len()
        invariant
            i <= accounts.len(),
            all == accounts.deep_view(),
            accounts_info(all.take(i as int)) == Ok::<Seq<ValidatorInfoView>, NamesError>(
                infos.deep_view(),
            ),
        ensures
            i == accounts.len(),
        decreases accounts.len() - i,
    {
        proof {
            assert(all.take(i + 1).drop_last() =~= all.take(i as int));
            assert(all.take(i + 1).last() == accounts[i as int]@);
        }
        let ghost before = infos.deep_view();
        match decode_account(&accounts[i], i) {
            Ok(Some(info)) => {
                let ghost added = info@;
                infos.push(info);
                proof {
                    assert(infos.deep_view() =~= before.push(added));
                }
            },
            Ok(None) => {},
            Err(error) => {
                proof {
                    lemma_error_stays(all, i + 1, error);
                }
                return Err(error);
            },
        }
        i += 1;
    }
    proof {
        assert(all.take(i as int) =~= all);
    }
    Ok(infos)
}

/// An error met on a prefix of the accounts is the error of the whole.
pub proof fn lemma_error_stays(accounts: Seq<Seq<u8>>, n: int, error: NamesError)
    requires
        0 <= n <= accounts.len(),
        accounts_info(accounts.take(n)) == Err::<Seq<ValidatorInfoView>, NamesError>(error),
    ensures
        accounts_info(accounts) == Err::<Seq<ValidatorInfoView>, NamesError>(error),
    decreases accounts.len() - n,
{
    if n < accounts.len() {
        assert(accounts.take(n + 1).drop_last() =~= accounts.take(n));
        lemma_error_stays(accounts, n + 1, error);
    } else {
        assert(accounts.take(n) =~= accounts);
    }
}

/// The text that a field of an info object stands for: the string it
/// holds, the empty string where the object lacks the field. A field that
/// holds no string stands for nothing.
pub open spec fn field_text(field: InfoFieldView) -> Option<Seq<char>> {
    match field {
        InfoFieldView::Absent => Some(Seq::empty()),
        InfoFieldView::Text(text) => Some(text),
        InfoFieldView::Other => None,
    }
}

/// Reads a field of an info object as text.
pub fn text_of_field(field: &InfoField) -> (text: Option<String>)
    ensures
        text.deep_view() == field_text(field@),
{
    match field {
        InfoField::Absent => Some(String::new()),
        InfoField::Text(text) => Some(text.clone()),
        InfoField::Other => None,
    }
}

/// The display name and the username of `validator`: those of the last info
/// about it, two empty strings where there is no info. `None` where the info
/// holds, for one of the two, a value that is no string.
pub open spec fn names_of(infos: Seq<ValidatorInfo>, validator: Pubkey) -> Option<
    (Seq<char>, Seq<char>),
> {
    match last_index_of(infos, validator) {
        None => Some((Seq::empty(), Seq::empty())),
        Some(i) => match (field_text(infos[i].name@), field_text(infos[i].keybase_username@)) {
            (Some(name), Some(keybase_username)) => Some((name, keybase_username)),
            _ => None,
        },
    }
}

/// Looks up the display name and the username of `validator`.
pub fn display_names(infos: &Vec<ValidatorInfo>, validator: &Pubkey) -> (names: Option<
    (String, String),
>)
    ensures
        names.deep_view() == names_of(infos@, *validator),
{
    match find_last(infos, validator) {
        None => Some((String::new(), String::new())),
        Some(i) => {
            let name = text_of_field(&infos[i].name);
            let keybase_username = text_of_field(&infos[i].keybase_username);
            match (name, keybase_username) {
                (Some(name), Some(keybase_username)) => Some((name, keybase_username)),
                _ => None,
            }
        },
    }
}

} // verus!
