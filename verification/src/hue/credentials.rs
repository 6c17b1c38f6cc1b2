//! The keys that a bridge hands out, and what pairing comes to.
use crate::encoding;
use crate::hue::bridge::{hue_error, HueError};
use crate::text;
use vstd::prelude::*;

verus! {

/// The keys of a paired bridge: the application key is not empty, and the
/// Entertainment key is hexadecimal text of at least one byte. The type has no
/// `Debug`; [`BridgeCredentials::debug_text`] shows neither key.
pub struct BridgeCredentials {
    application_key: String,
    client_key: String,
}

/// The mathematical value of [`BridgeCredentials`].
#[verifier::ext_equal]
pub struct BridgeCredentialsView {
    pub application_key: Seq<char>,
    pub client_key: Seq<char>,
}

impl DeepView for BridgeCredentials {
    type V = BridgeCredentialsView;

    closed spec fn deep_view(&self) -> BridgeCredentialsView {
        BridgeCredentialsView {
            application_key: self.application_key@,
            client_key: self.client_key@,
        }
    }
}

/// What stands against a pair of keys.
pub open spec fn credentials_problem(application_key: Seq<char>, client_key: Seq<char>) -> Option<
    Seq<char>,
> {
    if application_key.len() == 0 {
        Some("Hue application key is empty"@)
    } else if !encoding::is_hex_text(client_key) {
        Some("Hue Entertainment key is not valid hex"@)
    } else if client_key.len() == 0 {
        Some("Hue Entertainment key is empty"@)
    } else {
        None
    }
}

impl BridgeCredentials {
    #[verifier::type_invariant]
    spec fn usable(&self) -> bool {
        credentials_problem(self.application_key@, self.client_key@) is None
    }

    /// Takes keys that can be used.
    pub fn new(application_key: String, client_key: String) -> (r: Result<Self, HueError>)
        ensures
            r is Ok <==> credentials_problem(application_key@, client_key@) is None,
            r matches Ok(credentials) ==> credentials.deep_view() == (BridgeCredentialsView {
                application_key: application_key@,
                client_key: client_key@,
            }),
            r matches Err(error) ==> Some(error@) == credentials_problem(
                application_key@,
                client_key@,
            ),
    {
        if application_key.as_str().is_empty() {
            return Err(hue_error("Hue application key is empty"));
        }
        match encoding::decode_hex(client_key.as_str()) {
            None => return Err(hue_error("Hue Entertainment key is not valid hex")),
            Some(key) => if key.len() == 0 {
                return Err(hue_error("Hue Entertainment key is empty"));
            },
        }
        Ok(BridgeCredentials { application_key, client_key })
    }

    /// The key that requests carry.
    pub fn application_key(&self) -> (r: &str)
        ensures
            r@ == self.deep_view().application_key,
            r@.len() > 0,
    {
        proof {
            use_type_invariant(self);
        }
        self.application_key.as_str()
    }

    /// The Entertainment key as hexadecimal text.
    pub fn client_key(&self) -> (r: &str)
        ensures
            r@ == self.deep_view().client_key,
            encoding::is_hex_text(r@),
            r@.len() > 0,
    {
        proof {
            use_type_invariant(self);
        }
        self.client_key.as_str()
    }

    /// The bytes of the Entertainment key.
    pub fn key_bytes(&self) -> (r: Vec<u8>)
        ensures
            r@ == encoding::hex_bytes(self.deep_view().client_key),
            r@.len() > 0,
    {
        proof {
            use_type_invariant(self);
        }
        match encoding::decode_hex(self.client_key.as_str()) {
            Some(key) => key,
            None => Vec::new(),
        }
    }

    /// A description for logs. It is the same for all keys, and shows none.
    pub fn debug_text(&self) -> (r: String)
        ensures
            r@
                == "BridgeCredentials { application_key: \"[REDACTED]\", client_key: \"[REDACTED]\" }"@,
    {
        "BridgeCredentials { application_key: \"[REDACTED]\", client_key: \"[REDACTED]\" }".to_owned()
    }
}

impl Clone for BridgeCredentials {
    fn clone(&self) -> (r: Self)
        ensures
            r.deep_view() == self.deep_view(),
    {
        proof {
            use_type_invariant(self);
        }
        BridgeCredentials {
            application_key: self.application_key.clone(),
            client_key: self.client_key.clone(),
        }
    }
}

/// What an attempt at pairing came to.
#[derive(Clone, Copy, Debug, PartialEq, Eq, Structural)]
pub enum PairAttempt {
    WaitingForLinkButton,
    Paired,
}

/// The bridge error that asks for its link button to be pressed.
pub const LINK_BUTTON_ERROR: u16 = 101;

/// An entry of the answer to a registration.
pub enum RegisterResponse {
    Success { username: String, clientkey: String },
    Error { error_type: u16 },
}

/// What the answer to a registration means.
pub enum Registration {
    /// The link button has to be pressed first.
    WaitingForLinkButton,
    /// The bridge handed out keys, which are to be stored.
    Granted(BridgeCredentials),
}

/// Why a registration failed, if it did: the first entry counts.
pub open spec fn registration_problem(entries: Seq<RegisterResponse>) -> Option<Seq<char>> {
    if entries.len() == 0 {
        Some("empty Hue pairing response"@)
    } else {
        match entries[0] {
            RegisterResponse::Success { username, clientkey } => credentials_problem(
                username@,
                clientkey@,
            ),
            RegisterResponse::Error { error_type } => if error_type == LINK_BUTTON_ERROR {
                None
            } else {
                Some(
                    "Hue pairing failed (bridge error "@ + text::decimal_text(error_type as nat)
                        + ")"@,
                )
            },
        }
    }
}

/// Reads the answer to a registration.
pub fn registration(entries: Vec<RegisterResponse>) -> (r: Result<Registration, HueError>)
    ensures
        r is Ok <==> registration_problem(entries@) is None,
        r matches Ok(Registration::WaitingForLinkButton) ==> entries@[0]
            == (RegisterResponse::Error { error_type: LINK_BUTTON_ERROR }),
        r matches Ok(Registration::Granted(credentials)) ==> {
            &&& entries@[0] matches RegisterResponse::Success { username, clientkey }
            &&& credentials.deep_view() == (BridgeCredentialsView {
                application_key: username@,
                client_key: clientkey@,
            })
        },
        r matches Err(error) ==> Some(error@) == registration_problem(entries@),
{
    if entries.len() == 0 {
        return Err(hue_error("empty Hue pairing response"));
    }
    match &entries[0] {
        RegisterResponse::Success { username, clientkey } => {
            match BridgeCredentials::new(username.clone(), clientkey.clone()) {
                Ok(credentials) => Ok(Registration::Granted(credentials)),
                Err(error) => Err(error),
            }
        },
        RegisterResponse::Error { error_type } => if *error_type == LINK_BUTTON_ERROR {
            Ok(Registration::WaitingForLinkButton)
        } else {
            Err(
                HueError::new(
                    text::concat3(
                        "Hue pairing failed (bridge error ",
                        text::decimal(*error_type as u64).as_str(),
                        ")",
                    ),
                ),
            )
        },
    }
}

} // verus!
