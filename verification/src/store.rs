//! The credential store's logic: encoding the persisted configuration
//! record and decoding it back. Reading and writing the file itself is the
//! caller's part.

use vstd::prelude::*;
use crate::parse::parse_structured;
use crate::parse::parsed_body;
use crate::value::lemma_view_entries;
use crate::value::view_entries;
use crate::value::SpecValue;
use crate::value::StructuredValue;

verus! {

/// The secret token that authenticates lookup requests.
pub struct Credential {
    pub token: String,
}

/// Why a persisted credential could not be loaded.
#[derive(Debug)]
pub enum ConfigError {
    /// No record has been persisted yet.
    ConfigMissing,
    /// The record exists but cannot be read as a configuration.
    ConfigCorrupt,
}

/// The first value stored under `key`, in entry order.
pub open spec fn spec_lookup(es: Seq<(Seq<char>, SpecValue)>, key: Seq<char>) -> Option<SpecValue>
    decreases es.len(),
{
    if es.len() == 0 {
        None
    } else if es[0].0 == key {
        Some(es[0].1)
    } else {
        spec_lookup(es.subrange(1, es.len() as int), key)
    }
}

/// The token held by a configuration value: the text under its `cookie`
/// entry, if the value is a mapping with such an entry.
pub open spec fn spec_cookie_of(v: SpecValue) -> Option<Seq<char>> {
    match v {
        SpecValue::Mapping(es) => match spec_lookup(es, "cookie"@) {
            Some(SpecValue::Text(t)) => Some(t),
            _ => None,
        },
        _ => None,
    }
}

/// The token that a record text decodes to, if it parses to a configuration.
pub open spec fn spec_decode(s: Seq<char>) -> Option<Seq<char>> {
    match parsed_body(s) {
        Some(v) => spec_cookie_of(v),
        None => None,
    }
}

/// Relies on `serde_json::to_string_pretty` and `serde_json::from_str`
/// round-tripping a one-entry object: serializing the object
/// `{"cookie": token}` yields a text that parses back to exactly that
/// mapping. Serializing a string-keyed `serde_json::Value` cannot fail.
#[verifier::external_body]
fn encode_config(token: &String) -> (r: String)
    ensures
        parsed_body(r@) == Some(
            SpecValue::Mapping(seq![("cookie"@, SpecValue::Text(token@))]),
        ),
{
    let mut record = serde_json::Map::new();
    record.insert("cookie".to_string(), serde_json::Value::String(token.clone()));
    serde_json::to_string_pretty(&serde_json::Value::Object(record)).unwrap()
}

/// Encodes a credential as the persisted configuration record: a text that
/// decodes back to exactly this credential's token.
pub fn encode_credential(c: &Credential) -> (r: String)
    ensures
        spec_decode(r@) == Some(c.token@),
{
    let r = encode_config(&c.token);
    proof {
        let es = seq![("cookie"@, SpecValue::Text(c.token@))];
        assert(es[0].0 == "cookie"@);
        assert(spec_lookup(es, "cookie"@) == Some(SpecValue::Text(c.token@)));
    }
    r
}

/// Decodes a persisted record text: the credential under its `cookie`
/// entry, or `ConfigCorrupt` exactly when the text holds none.
pub fn decode_credential(s: &str) -> (r: Result<Credential, ConfigError>)
    ensures
        match r {
            Ok(c) => spec_decode(s@) == Some(c.token@),
            Err(e) => spec_decode(s@) is None && e is ConfigCorrupt,
        },
{
    match parse_structured(s) {
        None => Err(ConfigError::ConfigCorrupt),
        Some(v) => match v {
            StructuredValue::Mapping(es) => {
                proof {
                    lemma_view_entries(es@);
                }
                let ghost ve = view_entries(es@);
                let key = String::from_str("cookie");
                let mut i: usize = 0;
                proof {
                    assert(ve.subrange(0, ve.len() as int) =~= ve);
                }
                while i < es.len()
                    invariant
                        v == StructuredValue::Mapping(es),
                        parsed_body(s@) == Some(v@),
                        key@ == "cookie"@,
                        i <= es.len(),
                        ve == view_entries(es@),
                        ve.len() == es@.len(),
                        forall|j: int| 0 <= j < es@.len() ==> #[trigger] ve[j] == (
                            es@[j].0@,
                            es@[j].1@,
                        ),
                        spec_lookup(ve, "cookie"@) == spec_lookup(
                            ve.subrange(i as int, ve.len() as int),
                            "cookie"@,
                        ),
                    decreases es.len() - i,
                {
                    let ghost rest = ve.subrange(i as int, ve.len() as int);
                    if es[i].0 == key {
                        proof {
                            assert(rest[0] == ve[i as int]);
                        }
                        match &es[i].1 {
                            StructuredValue::Text(t) => {
                                return Ok(Credential { token: t.clone() });
                            },
                            _ => {
                                return Err(ConfigError::ConfigCorrupt);
                            },
                        }
                    }
                    proof {
                        assert(rest[0] == ve[i as int]);
                        assert(rest.subrange(1, rest.len() as int) =~= ve.subrange(
                            i + 1,
                            ve.len() as int,
                        ));
                    }
                    i = i + 1;
                }
                proof {
                    assert(ve.subrange(es@.len() as int, ve.len() as int).len() == 0);
                }
                Err(ConfigError::ConfigCorrupt)
            },
            _ => Err(ConfigError::ConfigCorrupt),
        },
    }
}

/// The credential loaded from the record found at the configuration path:
/// no record means `ConfigMissing`; a record that does not decode means
/// `ConfigCorrupt`; otherwise the stored token.
pub fn load_credential(content: Option<String>) -> (r: Result<Credential, ConfigError>)
    ensures
        match content {
            None => r matches Err(ConfigError::ConfigMissing),
            Some(s) => match r {
                Ok(c) => spec_decode(s@) == Some(c.token@),
                Err(e) => spec_decode(s@) is None && e is ConfigCorrupt,
            },
        },
{
    match content {
        None => Err(ConfigError::ConfigMissing),
        Some(s) => decode_credential(s.as_str()),
    }
}

/// Round trip: a record text that parses as the one-entry configuration
/// mapping for a token decodes to exactly that token.
pub proof fn lemma_credential_round_trip(token: Seq<char>, stored: Seq<char>)
    requires
        parsed_body(stored) == Some(
            SpecValue::Mapping(seq![("cookie"@, SpecValue::Text(token))]),
        ),
    ensures
        spec_decode(stored) == Some(token),
{
    let es = seq![("cookie"@, SpecValue::Text(token))];
    assert(spec_lookup(es, "cookie"@) == Some(SpecValue::Text(token)));
}

} // verus!
