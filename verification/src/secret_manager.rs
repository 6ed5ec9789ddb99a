//! The secret store: a single optional secret held in two tiers — process
//! memory (authoritative when set) and the OS keychain (consulted only when
//! the user opted into persistence). Keychain outcomes are classified by
//! error kind: "no entry" is absence, storage or platform failures are a
//! distinct unavailability, and forgetting never fails visibly.

use vstd::prelude::*;

use crate::strings::{trim_of, trim_spec};

verus! {

/// The keychain service name this application stores its secrets under.
pub fn keyring_service() -> (r: &'static str)
    ensures
        r@ == "com.softaworks.claudometer"@,
{
    "com.softaworks.claudometer"
}

/// What one keychain read came back with, by kind.
#[derive(Debug, Clone, PartialEq, Eq)]
pub enum KeyringReadOutcome {
    /// The stored secret.
    Value(String),
    /// No entry exists: absence, not an error.
    NoEntry,
    /// An entry exists but its bytes do not decode.
    BadEncoding,
    /// More than one matching entry exists.
    Ambiguous,
    /// The secure storage cannot be reached.
    NoStorageAccess,
    /// The platform's keystore failed.
    PlatformFailure,
    /// The entry handle could not even be created.
    EntryInvalid,
    /// Any other error kind.
    Other,
}

/// Relies on `keyring::Entry::new` and `Entry::get_password`: a keychain
/// read, classified by `keyring::Error` variant. The outcome depends on OS
/// state, so nothing more is promised of it.
#[verifier::external_body]
fn keyring_read(service: &str, user: &str) -> KeyringReadOutcome {
    let entry = match keyring::Entry::new(service, user) {
        Ok(e) => e,
        Err(_) => return KeyringReadOutcome::EntryInvalid,
    };
    match entry.get_password() {
        Ok(p) => KeyringReadOutcome::Value(p),
        Err(keyring::Error::NoEntry) => KeyringReadOutcome::NoEntry,
        Err(keyring::Error::BadEncoding(_)) => KeyringReadOutcome::BadEncoding,
        Err(keyring::Error::Ambiguous(_)) => KeyringReadOutcome::Ambiguous,
        Err(keyring::Error::NoStorageAccess(_)) => KeyringReadOutcome::NoStorageAccess,
        Err(keyring::Error::PlatformFailure(_)) => KeyringReadOutcome::PlatformFailure,
        Err(_) => KeyringReadOutcome::Other,
    }
}

/// Relies on `keyring::Entry::new` and `Entry::set_password`: writes the
/// secret to the keychain, reporting only success or failure.
#[verifier::external_body]
fn keyring_write(service: &str, user: &str, value: &str) -> bool {
    match keyring::Entry::new(service, user) {
        Ok(entry) => entry.set_password(value).is_ok(),
        Err(_) => false,
    }
}

/// Relies on `keyring::Entry::new` and `Entry::delete_credential`: removes
/// the keychain entry, best effort.
#[verifier::external_body]
fn keyring_delete(service: &str, user: &str) -> bool {
    match keyring::Entry::new(service, user) {
        Ok(entry) => entry.delete_credential().is_ok(),
        Err(_) => false,
    }
}

/// Availability classification: a readable value, a missing entry, bytes
/// that do not decode, and ambiguous matches all show a working store;
/// storage access and platform failures (or no entry handle at all) do not.
pub open spec fn keyring_available_spec(o: KeyringReadOutcome) -> bool {
    match o {
        KeyringReadOutcome::Value(_) => true,
        KeyringReadOutcome::NoEntry => true,
        KeyringReadOutcome::BadEncoding => true,
        KeyringReadOutcome::Ambiguous => true,
        KeyringReadOutcome::NoStorageAccess => false,
        KeyringReadOutcome::PlatformFailure => false,
        KeyringReadOutcome::EntryInvalid => false,
        KeyringReadOutcome::Other => false,
    }
}

pub fn classify_keyring_availability(o: &KeyringReadOutcome) -> (r: bool)
    ensures
        r == keyring_available_spec(*o),
{
    match o {
        KeyringReadOutcome::Value(_) => true,
        KeyringReadOutcome::NoEntry => true,
        KeyringReadOutcome::BadEncoding => true,
        KeyringReadOutcome::Ambiguous => true,
        _ => false,
    }
}

/// How a read outcome turns into a credential lookup result: a blank value
/// or a missing entry is absence; storage access and platform failures (or
/// no entry handle) are the distinct unavailability error; lesser error
/// kinds degrade to absence.
pub open spec fn keyring_value_spec(o: KeyringReadOutcome) -> Result<Option<Seq<char>>, ()> {
    match o {
        KeyringReadOutcome::Value(p) => if trim_spec(p@).len() == 0 {
            Ok(None)
        } else {
            Ok(Some(trim_spec(p@)))
        },
        KeyringReadOutcome::NoEntry => Ok(None),
        KeyringReadOutcome::NoStorageAccess => Err(()),
        KeyringReadOutcome::PlatformFailure => Err(()),
        KeyringReadOutcome::EntryInvalid => Err(()),
        _ => Ok(None),
    }
}

pub fn classify_keyring_value(o: KeyringReadOutcome) -> (r: Result<Option<String>, ()>)
    ensures
        match keyring_value_spec(o) {
            Ok(Some(v)) => r matches Ok(Some(s)) && s@ == v,
            Ok(None) => r == Ok::<Option<String>, ()>(None),
            Err(()) => r == Err::<Option<String>, ()>(()),
        },
{
    match o {
        KeyringReadOutcome::Value(p) => {
            let t = trim_of(p.as_str());
            if t.as_str().unicode_len() == 0 {
                Ok(None)
            } else {
                Ok(Some(t))
            }
        },
        KeyringReadOutcome::NoEntry => Ok(None),
        KeyringReadOutcome::NoStorageAccess => Err(()),
        KeyringReadOutcome::PlatformFailure => Err(()),
        KeyringReadOutcome::EntryInvalid => Err(()),
        _ => Ok(None),
    }
}

/// The in-memory and durable holder for one secret value.
pub struct SecretManager {
    user: String,
    in_memory: Option<String>,
}

impl SecretManager {
    /// The in-memory tier only ever holds a trimmed, nonempty value.
    pub closed spec fn wf(&self) -> bool {
        match self.in_memory {
            Some(v) => v@.len() > 0 && trim_spec(v@) == v@,
            None => true,
        }
    }

    pub closed spec fn spec_in_memory(&self) -> Option<Seq<char>> {
        match self.in_memory {
            Some(v) => Some(v@),
            None => None,
        }
    }

    pub fn new(user: &str) -> (r: Self)
        ensures
            r.wf(),
            r.spec_in_memory() is None,
    {
        SecretManager { user: user.to_owned(), in_memory: None }
    }

    /// Store (or clear) the in-memory tier; the value is trimmed and a blank
    /// value clears.
    pub fn set_in_memory(&mut self, value: Option<String>)
        ensures
            final(self).wf(),
            final(self).spec_in_memory() == match value {
                Some(v) => if trim_spec(v@).len() == 0 {
                    None::<Seq<char>>
                } else {
                    Some(trim_spec(v@))
                },
                None => None::<Seq<char>>,
            },
    {
        proof {
            crate::strings::lemma_trim_idempotent(match &value {
                Some(v) => v@,
                None => Seq::<char>::empty(),
            });
        }
        self.in_memory = match value {
            Some(v) => {
                let t = trim_of(v.as_str());
                if t.as_str().unicode_len() == 0 {
                    None
                } else {
                    Some(t)
                }
            },
            None => None,
        };
    }

    /// Probe the keychain and classify the outcome; entry-not-found, bad
    /// encoding and ambiguous matches count as available.
    pub fn is_available(&self) -> bool {
        let outcome = keyring_read(keyring_service(), self.user.as_str());
        classify_keyring_availability(&outcome)
    }

    /// The current secret: the in-memory value when set; otherwise absent
    /// unless `remember` allows a keychain read, whose value (if any) is
    /// cached in memory. `Err` is the distinct keychain-unavailable outcome,
    /// never mere absence.
    pub fn get_current(&mut self, remember: bool) -> (r: Result<Option<String>, ()>)
        requires
            old(self).wf(),
        ensures
            final(self).wf(),
            old(self).spec_in_memory() matches Some(v) ==> r matches Ok(Some(s)) && s@ == v
                && final(self).spec_in_memory() == Some(v),
            old(self).spec_in_memory() is None && !remember ==> r == Ok::<Option<String>, ()>(None)
                && final(self).spec_in_memory() is None,
            r matches Ok(Some(s)) ==> final(self).spec_in_memory() == Some(s@),
    {
        match &self.in_memory {
            Some(v) => {
                return Ok(Some(v.clone()));
            },
            None => {},
        }
        if !remember {
            return Ok(None);
        }
        let outcome = keyring_read(keyring_service(), self.user.as_str());
        proof {
            match &outcome {
                KeyringReadOutcome::Value(p) => crate::strings::lemma_trim_idempotent(p@),
                _ => {},
            }
        }
        match classify_keyring_value(outcome) {
            Ok(Some(v)) => {
                self.in_memory = Some(v.clone());
                Ok(Some(v))
            },
            Ok(None) => Ok(None),
            Err(()) => Err(()),
        }
    }

    /// Write the secret to the keychain; a write failure is surfaced (it is
    /// distinct from read failures).
    pub fn remember(&self, value: &str) -> Result<(), ()> {
        if keyring_write(keyring_service(), self.user.as_str(), value) {
            Ok(())
        } else {
            Err(())
        }
    }

    /// Remove the durable tier, best effort: deletion failures are
    /// swallowed.
    pub fn delete_persisted(&self) -> (r: Result<(), ()>)
        ensures
            r is Ok,
    {
        let _ = keyring_delete(keyring_service(), self.user.as_str());
        Ok(())
    }

    /// Clear both tiers; forgetting never fails visibly.
    pub fn forget_all(&mut self) -> (r: Result<(), ()>)
        ensures
            r is Ok,
            final(self).wf(),
            final(self).spec_in_memory() is None,
    {
        let _ = self.delete_persisted();
        self.set_in_memory(None);
        Ok(())
    }
}

} // verus!
