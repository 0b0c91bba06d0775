//! EAP/802.1X authentication types and form state for enterprise WiFi.
//!
//! Text fields are edited at byte offsets of their UTF-8 encoding, as
//! `String::insert` and `String::remove` take them; the cursor is such a
//! byte offset.

use vstd::prelude::*;
use crate::host;
use crate::text::{
    all_ws, byte_len, char_index, is_blank, is_boundary, lemma_byte_len_take_mono,
    lemma_byte_len_take_step, lemma_char_index, str_byte_len, string_insert, string_remove,
};

verus! {

// ---------------------------------------------------------------------
// EAP method
// ---------------------------------------------------------------------

/// Supported EAP methods.
#[derive(Debug, Clone, Copy, PartialEq, Eq, Structural)]
pub enum EapMethod {
    Peap,
    Ttls,
}

impl Default for EapMethod {
    fn default() -> (m: Self)
        ensures
            m == EapMethod::Peap,
    {
        EapMethod::Peap
    }
}

impl EapMethod {
    /// The method that follows `self` when cycling.
    pub open spec fn next_spec(self) -> EapMethod {
        match self {
            EapMethod::Peap => EapMethod::Ttls,
            EapMethod::Ttls => EapMethod::Peap,
        }
    }

    /// The method that precedes `self` when cycling.
    pub open spec fn prev_spec(self) -> EapMethod {
        match self {
            EapMethod::Peap => EapMethod::Ttls,
            EapMethod::Ttls => EapMethod::Peap,
        }
    }

    /// The NetworkManager name of the method.
    pub fn as_str(&self) -> (s: &'static str)
        ensures
            s@ == (match *self {
                EapMethod::Peap => "peap"@,
                EapMethod::Ttls => "ttls"@,
            }),
    {
        match self {
            EapMethod::Peap => "peap",
            EapMethod::Ttls => "ttls",
        }
    }

    /// The name shown in the form.
    pub fn display_name(&self) -> (s: &'static str)
        ensures
            s@ == (match *self {
                EapMethod::Peap => "PEAP"@,
                EapMethod::Ttls => "TTLS"@,
            }),
    {
        match self {
            EapMethod::Peap => "PEAP",
            EapMethod::Ttls => "TTLS",
        }
    }

    /// All available methods, in cycling order.
    pub fn all() -> (r: &'static [EapMethod])
        ensures
            r@ == seq![EapMethod::Peap, EapMethod::Ttls],
    {
        &[EapMethod::Peap, EapMethod::Ttls]
    }

    /// Cycles to the next method.
    pub fn next(self) -> (r: Self)
        ensures
            r == self.next_spec(),
    {
        match self {
            EapMethod::Peap => EapMethod::Ttls,
            EapMethod::Ttls => EapMethod::Peap,
        }
    }

    /// Cycles to the previous method.
    pub fn prev(self) -> (r: Self)
        ensures
            r == self.prev_spec(),
    {
        match self {
            EapMethod::Peap => EapMethod::Ttls,
            EapMethod::Ttls => EapMethod::Peap,
        }
    }
}

// ---------------------------------------------------------------------
// Phase 2 authentication
// ---------------------------------------------------------------------

/// Phase 2 (inner) authentication methods.
#[derive(Debug, Clone, Copy, PartialEq, Eq, Structural)]
pub enum Phase2Auth {
    Mschapv2,
    Mschap,
    Pap,
    Chap,
    Gtc,
}

impl Default for Phase2Auth {
    fn default() -> (m: Self)
        ensures
            m == Phase2Auth::Mschapv2,
    {
        Phase2Auth::Mschapv2
    }
}

impl Phase2Auth {
    /// The method that follows `self` when cycling.
    pub open spec fn next_spec(self) -> Phase2Auth {
        match self {
            Phase2Auth::Mschapv2 => Phase2Auth::Mschap,
            Phase2Auth::Mschap => Phase2Auth::Pap,
            Phase2Auth::Pap => Phase2Auth::Chap,
            Phase2Auth::Chap => Phase2Auth::Gtc,
            Phase2Auth::Gtc => Phase2Auth::Mschapv2,
        }
    }

    /// The method that precedes `self` when cycling.
    pub open spec fn prev_spec(self) -> Phase2Auth {
        match self {
            Phase2Auth::Mschapv2 => Phase2Auth::Gtc,
            Phase2Auth::Mschap => Phase2Auth::Mschapv2,
            Phase2Auth::Pap => Phase2Auth::Mschap,
            Phase2Auth::Chap => Phase2Auth::Pap,
            Phase2Auth::Gtc => Phase2Auth::Chap,
        }
    }

    /// The NetworkManager name of the method.
    pub fn as_str(&self) -> (s: &'static str)
        ensures
            s@ == (match *self {
                Phase2Auth::Mschapv2 => "mschapv2"@,
                Phase2Auth::Mschap => "mschap"@,
                Phase2Auth::Pap => "pap"@,
                Phase2Auth::Chap => "chap"@,
                Phase2Auth::Gtc => "gtc"@,
            }),
    {
        match self {
            Phase2Auth::Mschapv2 => "mschapv2",
            Phase2Auth::Mschap => "mschap",
            Phase2Auth::Pap => "pap",
            Phase2Auth::Chap => "chap",
            Phase2Auth::Gtc => "gtc",
        }
    }

    /// The name shown in the form.
    pub fn display_name(&self) -> (s: &'static str)
        ensures
            s@ == (match *self {
                Phase2Auth::Mschapv2 => "MSCHAPv2"@,
                Phase2Auth::Mschap => "MSCHAP"@,
                Phase2Auth::Pap => "PAP"@,
                Phase2Auth::Chap => "CHAP"@,
                Phase2Auth::Gtc => "GTC"@,
            }),
    {
        match self {
            Phase2Auth::Mschapv2 => "MSCHAPv2",
            Phase2Auth::Mschap => "MSCHAP",
            Phase2Auth::Pap => "PAP",
            Phase2Auth::Chap => "CHAP",
            Phase2Auth::Gtc => "GTC",
        }
    }

    /// All available methods, in cycling order.
    pub fn all() -> (r: &'static [Phase2Auth])
        ensures
            r@ == seq![
                Phase2Auth::Mschapv2,
                Phase2Auth::Mschap,
                Phase2Auth::Pap,
                Phase2Auth::Chap,
                Phase2Auth::Gtc,
            ],
    {
        &[Phase2Auth::Mschapv2, Phase2Auth::Mschap, Phase2Auth::Pap, Phase2Auth::Chap, Phase2Auth::Gtc]
    }

    /// Cycles to the next method.
    pub fn next(self) -> (r: Self)
        ensures
            r == self.next_spec(),
    {
        match self {
            Phase2Auth::Mschapv2 => Phase2Auth::Mschap,
            Phase2Auth::Mschap => Phase2Auth::Pap,
            Phase2Auth::Pap => Phase2Auth::Chap,
            Phase2Auth::Chap => Phase2Auth::Gtc,
            Phase2Auth::Gtc => Phase2Auth::Mschapv2,
        }
    }

    /// Cycles to the previous method.
    pub fn prev(self) -> (r: Self)
        ensures
            r == self.prev_spec(),
    {
        match self {
            Phase2Auth::Mschapv2 => Phase2Auth::Gtc,
            Phase2Auth::Mschap => Phase2Auth::Mschapv2,
            Phase2Auth::Pap => Phase2Auth::Mschap,
            Phase2Auth::Chap => Phase2Auth::Pap,
            Phase2Auth::Gtc => Phase2Auth::Chap,
        }
    }
}

// ---------------------------------------------------------------------
// Form fields
// ---------------------------------------------------------------------

/// Form fields, in keyboard navigation order.
#[derive(Debug, Clone, Copy, PartialEq, Eq, Structural)]
pub enum EapFormField {
    EapMethod,
    Identity,
    Password,
    AnonymousIdentity,
    CaCertPath,
    Phase2Auth,
    ConnectButton,
    CancelButton,
}

impl Default for EapFormField {
    fn default() -> (f: Self)
        ensures
            f == EapFormField::EapMethod,
    {
        EapFormField::EapMethod
    }
}

impl EapFormField {
    /// The field that follows `self` in navigation order.
    pub open spec fn next_spec(self) -> EapFormField {
        match self {
            EapFormField::EapMethod => EapFormField::Identity,
            EapFormField::Identity => EapFormField::Password,
            EapFormField::Password => EapFormField::AnonymousIdentity,
            EapFormField::AnonymousIdentity => EapFormField::CaCertPath,
            EapFormField::CaCertPath => EapFormField::Phase2Auth,
            EapFormField::Phase2Auth => EapFormField::ConnectButton,
            EapFormField::ConnectButton => EapFormField::CancelButton,
            EapFormField::CancelButton => EapFormField::EapMethod,
        }
    }

    /// The field that precedes `self` in navigation order.
    pub open spec fn prev_spec(self) -> EapFormField {
        match self {
            EapFormField::EapMethod => EapFormField::CancelButton,
            EapFormField::Identity => EapFormField::EapMethod,
            EapFormField::Password => EapFormField::Identity,
            EapFormField::AnonymousIdentity => EapFormField::Password,
            EapFormField::CaCertPath => EapFormField::AnonymousIdentity,
            EapFormField::Phase2Auth => EapFormField::CaCertPath,
            EapFormField::ConnectButton => EapFormField::Phase2Auth,
            EapFormField::CancelButton => EapFormField::ConnectButton,
        }
    }

    /// The fields that take typed text.
    pub open spec fn is_text_spec(self) -> bool {
        self is Identity || self is Password || self is AnonymousIdentity || self is CaCertPath
    }

    /// The fields that choose among options.
    pub open spec fn is_dropdown_spec(self) -> bool {
        self is EapMethod || self is Phase2Auth
    }

    /// The fields that are buttons.
    pub open spec fn is_button_spec(self) -> bool {
        self is ConnectButton || self is CancelButton
    }

    /// Moves to the next field.
    pub fn next(self) -> (r: Self)
        ensures
            r == self.next_spec(),
    {
        match self {
            Self::EapMethod => Self::Identity,
            Self::Identity => Self::Password,
            Self::Password => Self::AnonymousIdentity,
            Self::AnonymousIdentity => Self::CaCertPath,
            Self::CaCertPath => Self::Phase2Auth,
            Self::Phase2Auth => Self::ConnectButton,
            Self::ConnectButton => Self::CancelButton,
            Self::CancelButton => Self::EapMethod,
        }
    }

    /// Moves to the previous field.
    pub fn prev(self) -> (r: Self)
        ensures
            r == self.prev_spec(),
    {
        match self {
            Self::EapMethod => Self::CancelButton,
            Self::Identity => Self::EapMethod,
            Self::Password => Self::Identity,
            Self::AnonymousIdentity => Self::Password,
            Self::CaCertPath => Self::AnonymousIdentity,
            Self::Phase2Auth => Self::CaCertPath,
            Self::ConnectButton => Self::Phase2Auth,
            Self::CancelButton => Self::ConnectButton,
        }
    }

    /// Whether this field is a text input field.
    pub fn is_text_field(self) -> (b: bool)
        ensures
            b == self.is_text_spec(),
    {
        match self {
            Self::Identity | Self::Password | Self::AnonymousIdentity | Self::CaCertPath => true,
            _ => false,
        }
    }

    /// Whether this field is a dropdown selector.
    pub fn is_dropdown(self) -> (b: bool)
        ensures
            b == self.is_dropdown_spec(),
    {
        match self {
            Self::EapMethod | Self::Phase2Auth => true,
            _ => false,
        }
    }

    /// Whether this field is a button.
    pub fn is_button(self) -> (b: bool)
        ensures
            b == self.is_button_spec(),
    {
        match self {
            Self::ConnectButton | Self::CancelButton => true,
            _ => false,
        }
    }
}

// ---------------------------------------------------------------------
// Form state
// ---------------------------------------------------------------------

/// Form state for the EAP connection dialog.
#[derive(Debug, Clone)]
pub struct EapFormState {
    /// Network SSID being configured
    pub ssid: String,
    /// Selected EAP method
    pub eap_method: EapMethod,
    /// Username/Identity
    pub identity: String,
    /// Password
    pub password: String,
    /// Anonymous identity (outer tunnel)
    pub anonymous_identity: String,
    /// CA certificate path
    pub ca_cert_path: String,
    /// Phase 2 authentication method
    pub phase2_auth: Phase2Auth,
    /// Currently focused field (for keyboard navigation)
    pub focused_field: EapFormField,
    /// Cursor position, a byte offset into the focused text field
    pub cursor_pos: usize,
    /// Tab completion candidates for the CA certificate path
    pub completions: Vec<String>,
    /// Current completion index
    pub completion_index: usize,
    /// Error message to display
    pub error_message: Option<String>,
    /// Blink counter for the cursor animation
    pub blink_counter: u32,
}

/// The text of field `f` of `s`; empty for fields that hold no text.
pub open spec fn text_of(s: EapFormState, f: EapFormField) -> Seq<char> {
    match f {
        EapFormField::Identity => s.identity@,
        EapFormField::Password => s.password@,
        EapFormField::AnonymousIdentity => s.anonymous_identity@,
        EapFormField::CaCertPath => s.ca_cert_path@,
        _ => Seq::empty(),
    }
}

/// The text of the focused field.
pub open spec fn focused_text(s: EapFormState) -> Seq<char> {
    text_of(s, s.focused_field)
}

/// `a` and `b` agree on every text field other than `f`.
pub open spec fn other_texts_same(a: EapFormState, b: EapFormState, f: EapFormField) -> bool {
    &&& f != EapFormField::Identity ==> a.identity == b.identity
    &&& f != EapFormField::Password ==> a.password == b.password
    &&& f != EapFormField::AnonymousIdentity ==> a.anonymous_identity == b.anonymous_identity
    &&& f != EapFormField::CaCertPath ==> a.ca_cert_path == b.ca_cert_path
}

/// `a` and `b` agree on all four text fields.
pub open spec fn texts_same(a: EapFormState, b: EapFormState) -> bool {
    &&& a.identity == b.identity
    &&& a.password == b.password
    &&& a.anonymous_identity == b.anonymous_identity
    &&& a.ca_cert_path == b.ca_cert_path
}

/// `a` and `b` agree on everything but the texts, the cursor and the
/// completions.
pub open spec fn settings_same(a: EapFormState, b: EapFormState) -> bool {
    &&& a.ssid == b.ssid
    &&& a.eap_method == b.eap_method
    &&& a.phase2_auth == b.phase2_auth
    &&& a.focused_field == b.focused_field
    &&& a.error_message == b.error_message
    &&& a.blink_counter == b.blink_counter
}

/// Every text field's encoding has a length that a `usize` holds.
pub open spec fn lengths_fit(s: EapFormState) -> bool {
    &&& byte_len(s.identity@) <= usize::MAX
    &&& byte_len(s.password@) <= usize::MAX
    &&& byte_len(s.anonymous_identity@) <= usize::MAX
    &&& byte_len(s.ca_cert_path@) <= usize::MAX
}

/// The message for a CA certificate path that does not exist.
pub open spec fn ca_missing_message(path: Seq<char>) -> Seq<char> {
    "CA certificate not found: "@ + path
}

/// What validating gives, given whether the CA certificate path exists.
pub open spec fn validation_result(s: EapFormState, ca_exists: bool) -> Option<Seq<char>> {
    if all_ws(s.identity@) {
        Some("Username is required"@)
    } else if s.password@.len() == 0 {
        Some("Password is required"@)
    } else if s.ca_cert_path@.len() != 0 && !ca_exists {
        Some(ca_missing_message(s.ca_cert_path@))
    } else {
        None
    }
}

impl Default for EapFormState {
    fn default() -> (s: Self)
        ensures
            s.ssid@.len() == 0,
            s.eap_method == EapMethod::Peap,
            s.identity@.len() == 0,
            s.password@.len() == 0,
            s.anonymous_identity@.len() == 0,
            s.ca_cert_path@.len() == 0,
            s.phase2_auth == Phase2Auth::Mschapv2,
            s.focused_field == EapFormField::EapMethod,
            s.cursor_pos == 0,
            s.completions@.len() == 0,
            s.completion_index == 0,
            s.error_message is None,
            s.blink_counter == 0,
    {
        EapFormState {
            ssid: String::new(),
            eap_method: EapMethod::Peap,
            identity: String::new(),
            password: String::new(),
            anonymous_identity: String::new(),
            ca_cert_path: String::new(),
            phase2_auth: Phase2Auth::Mschapv2,
            focused_field: EapFormField::EapMethod,
            cursor_pos: 0,
            completions: Vec::new(),
            completion_index: 0,
            error_message: None,
            blink_counter: 0,
        }
    }
}

impl EapFormState {
    /// A fresh form for the network `ssid`, with every other field at its
    /// default.
    pub fn new(ssid: String) -> (s: Self)
        ensures
            s.ssid == ssid,
            s.eap_method == EapMethod::Peap,
            s.identity@.len() == 0,
            s.password@.len() == 0,
            s.anonymous_identity@.len() == 0,
            s.ca_cert_path@.len() == 0,
            s.phase2_auth == Phase2Auth::Mschapv2,
            s.focused_field == EapFormField::EapMethod,
            s.cursor_pos == 0,
            s.completions@.len() == 0,
            s.completion_index == 0,
            s.error_message is None,
            s.blink_counter == 0,
    {
        EapFormState {
            ssid,
            eap_method: EapMethod::Peap,
            identity: String::new(),
            password: String::new(),
            anonymous_identity: String::new(),
            ca_cert_path: String::new(),
            phase2_auth: Phase2Auth::Mschapv2,
            focused_field: EapFormField::EapMethod,
            cursor_pos: 0,
            completions: Vec::new(),
            completion_index: 0,
            error_message: None,
            blink_counter: 0,
        }
    }

    /// The text of the focused field ("" for fields without text).
    pub fn current_text(&self) -> (t: &str)
        ensures
            t@ == focused_text(*self),
    {
        match self.focused_field {
            EapFormField::Identity => self.identity.as_str(),
            EapFormField::Password => self.password.as_str(),
            EapFormField::AnonymousIdentity => self.anonymous_identity.as_str(),
            EapFormField::CaCertPath => self.ca_cert_path.as_str(),
            _ => {
                proof {
                    reveal_strlit("");
                }
                ""
            },
        }
    }

    /// The focused text field, for editing; `None` when the focused field
    /// holds no text.
    pub fn current_text_mut(&mut self) -> (r: Option<&mut String>)
        ensures
            old(self).focused_field == EapFormField::Identity ==> (r matches Some(t) && *t
                == old(self).identity && *final(self) == (EapFormState {
                identity: *final(t),
                ..*old(self)
            })),
            old(self).focused_field == EapFormField::Password ==> (r matches Some(t) && *t
                == old(self).password && *final(self) == (EapFormState {
                password: *final(t),
                ..*old(self)
            })),
            old(self).focused_field == EapFormField::AnonymousIdentity ==> (r matches Some(t)
                && *t == old(self).anonymous_identity && *final(self) == (EapFormState {
                anonymous_identity: *final(t),
                ..*old(self)
            })),
            old(self).focused_field == EapFormField::CaCertPath ==> (r matches Some(t) && *t
                == old(self).ca_cert_path && *final(self) == (EapFormState {
                ca_cert_path: *final(t),
                ..*old(self)
            })),
            !old(self).focused_field.is_text_spec() ==> (r is None && *final(self) == *old(
                self,
            )),
    {
        match self.focused_field {
            EapFormField::Identity => Some(&mut self.identity),
            EapFormField::Password => Some(&mut self.password),
            EapFormField::AnonymousIdentity => Some(&mut self.anonymous_identity),
            EapFormField::CaCertPath => Some(&mut self.ca_cert_path),
            _ => None,
        }
    }

    /// Inserts `c` at the cursor, when the cursor lies within the focused
    /// text, and moves the cursor past it; then clears the completions.
    pub fn insert_char(&mut self, c: char)
        requires
            old(self).focused_field.is_text_spec() && old(self).cursor_pos <= byte_len(
                focused_text(*old(self)),
            ) ==> old(self).cursor_pos < usize::MAX,
            lengths_fit(*old(self)),
            old(self).focused_field.is_text_spec() && old(self).cursor_pos <= byte_len(
                focused_text(*old(self)),
            ) ==> is_boundary(focused_text(*old(self)), old(self).cursor_pos as int),
        ensures
            ({
                let t = focused_text(*old(self));
                let pos = old(self).cursor_pos;
                if old(self).focused_field.is_text_spec() && pos <= byte_len(t) {
                    &&& focused_text(*final(self)) == t.insert(char_index(t, pos as int), c)
                    &&& final(self).cursor_pos == pos + 1
                } else {
                    &&& focused_text(*final(self)) == t
                    &&& final(self).cursor_pos == pos
                }
            }),
            other_texts_same(*old(self), *final(self), old(self).focused_field),
            settings_same(*old(self), *final(self)),
            final(self).completions@.len() == 0,
            final(self).completion_index == 0,
    {
        let pos = self.cursor_pos;
        let mut inserted = false;
        match self.current_text_mut() {
            Some(text) => {
                if pos <= str_byte_len(text.as_str()) {
                    string_insert(text, pos, c);
                    inserted = true;
                }
            },
            None => {},
        }
        if inserted {
            self.cursor_pos = self.cursor_pos + 1;
        }
        self.clear_completions();
    }

    /// Deletes the character before the cursor (backspace) and moves the
    /// cursor back one byte; then clears the completions.
    pub fn backspace(&mut self)
        requires
            lengths_fit(*old(self)),
            old(self).focused_field.is_text_spec() && 0 < old(self).cursor_pos <= byte_len(
                focused_text(*old(self)),
            ) ==> is_boundary(focused_text(*old(self)), old(self).cursor_pos - 1),
        ensures
            ({
                let t = focused_text(*old(self));
                let pos = old(self).cursor_pos;
                &&& if old(self).focused_field.is_text_spec() && 0 < pos <= byte_len(t) {
                    focused_text(*final(self)) == t.remove(char_index(t, pos - 1))
                } else {
                    focused_text(*final(self)) == t
                }
                &&& final(self).cursor_pos == if pos > 0 {
                    pos - 1
                } else {
                    0
                }
            }),
            other_texts_same(*old(self), *final(self), old(self).focused_field),
            settings_same(*old(self), *final(self)),
            final(self).completions@.len() == 0,
            final(self).completion_index == 0,
    {
        let pos = self.cursor_pos;
        if pos > 0 {
            match self.current_text_mut() {
                Some(text) => {
                    if pos <= str_byte_len(text.as_str()) {
                        string_remove(text, pos - 1);
                    }
                },
                None => {},
            }
            self.cursor_pos = self.cursor_pos - 1;
        }
        self.clear_completions();
    }

    /// Deletes the character at the cursor (delete key); then clears the
    /// completions.
    pub fn delete(&mut self)
        requires
            lengths_fit(*old(self)),
            old(self).focused_field.is_text_spec() && old(self).cursor_pos < byte_len(
                focused_text(*old(self)),
            ) ==> is_boundary(focused_text(*old(self)), old(self).cursor_pos as int),
        ensures
            ({
                let t = focused_text(*old(self));
                let pos = old(self).cursor_pos;
                if old(self).focused_field.is_text_spec() && pos < byte_len(t) {
                    focused_text(*final(self)) == t.remove(char_index(t, pos as int))
                } else {
                    focused_text(*final(self)) == t
                }
            }),
            final(self).cursor_pos == old(self).cursor_pos,
            other_texts_same(*old(self), *final(self), old(self).focused_field),
            settings_same(*old(self), *final(self)),
            final(self).completions@.len() == 0,
            final(self).completion_index == 0,
    {
        let pos = self.cursor_pos;
        match self.current_text_mut() {
            Some(text) => {
                if pos < str_byte_len(text.as_str()) {
                    string_remove(text, pos);
                }
            },
            None => {},
        }
        self.clear_completions();
    }

    /// Moves the cursor one byte left, unless it is at the start.
    pub fn cursor_left(&mut self)
        ensures
            final(self).cursor_pos == if old(self).cursor_pos > 0 {
                (old(self).cursor_pos - 1) as usize
            } else {
                0
            },
            *final(self) == (EapFormState { cursor_pos: final(self).cursor_pos, ..*old(self) }),
    {
        if self.cursor_pos > 0 {
            self.cursor_pos = self.cursor_pos - 1;
        }
    }

    /// Moves the cursor one byte right, unless it is at or past the end of
    /// the focused text.
    pub fn cursor_right(&mut self)
        requires
            lengths_fit(*old(self)),
        ensures
            final(self).cursor_pos == if old(self).cursor_pos < byte_len(
                focused_text(*old(self)),
            ) {
                (old(self).cursor_pos + 1) as usize
            } else {
                old(self).cursor_pos
            },
            *final(self) == (EapFormState { cursor_pos: final(self).cursor_pos, ..*old(self) }),
    {
        let len = str_byte_len(self.current_text());
        if self.cursor_pos < len {
            self.cursor_pos = self.cursor_pos + 1;
        }
    }

    /// Moves the cursor to the start.
    pub fn cursor_home(&mut self)
        ensures
            *final(self) == (EapFormState { cursor_pos: 0, ..*old(self) }),
    {
        self.cursor_pos = 0;
    }

    /// Moves the cursor to the end of the focused text.
    pub fn cursor_end(&mut self)
        requires
            lengths_fit(*old(self)),
        ensures
            final(self).cursor_pos == byte_len(focused_text(*old(self))),
            *final(self) == (EapFormState { cursor_pos: final(self).cursor_pos, ..*old(self) }),
    {
        self.cursor_pos = str_byte_len(self.current_text());
    }

    /// Clears the tab completions.
    pub fn clear_completions(&mut self)
        ensures
            final(self).completions@.len() == 0,
            final(self).completion_index == 0,
            *final(self) == (EapFormState {
                completions: final(self).completions,
                completion_index: 0,
                ..*old(self)
            }),
    {
        self.completions.clear();
        self.completion_index = 0;
    }

    /// Cycles the EAP method forward.
    pub fn cycle_eap_method_next(&mut self)
        ensures
            *final(self) == (EapFormState {
                eap_method: old(self).eap_method.next_spec(),
                ..*old(self)
            }),
    {
        self.eap_method = self.eap_method.next();
    }

    /// Cycles the EAP method backward.
    pub fn cycle_eap_method_prev(&mut self)
        ensures
            *final(self) == (EapFormState {
                eap_method: old(self).eap_method.prev_spec(),
                ..*old(self)
            }),
    {
        self.eap_method = self.eap_method.prev();
    }

    /// Cycles the phase 2 method forward.
    pub fn cycle_phase2_next(&mut self)
        ensures
            *final(self) == (EapFormState {
                phase2_auth: old(self).phase2_auth.next_spec(),
                ..*old(self)
            }),
    {
        self.phase2_auth = self.phase2_auth.next();
    }

    /// Cycles the phase 2 method backward.
    pub fn cycle_phase2_prev(&mut self)
        ensures
            *final(self) == (EapFormState {
                phase2_auth: old(self).phase2_auth.prev_spec(),
                ..*old(self)
            }),
    {
        self.phase2_auth = self.phase2_auth.prev();
    }

    /// Moves focus to the next field, with the cursor at the end of its
    /// text and no completions.
    pub fn focus_next(&mut self)
        requires
            lengths_fit(*old(self)),
        ensures
            final(self).focused_field == old(self).focused_field.next_spec(),
            final(self).cursor_pos == byte_len(focused_text(*final(self))),
            final(self).completions@.len() == 0,
            final(self).completion_index == 0,
            texts_same(*old(self), *final(self)),
            final(self).ssid == old(self).ssid,
            final(self).eap_method == old(self).eap_method,
            final(self).phase2_auth == old(self).phase2_auth,
            final(self).error_message == old(self).error_message,
            final(self).blink_counter == old(self).blink_counter,
    {
        self.focused_field = self.focused_field.next();
        self.update_cursor_for_field();
    }

    /// Moves focus to the previous field, with the cursor at the end of
    /// its text and no completions.
    pub fn focus_prev(&mut self)
        requires
            lengths_fit(*old(self)),
        ensures
            final(self).focused_field == old(self).focused_field.prev_spec(),
            final(self).cursor_pos == byte_len(focused_text(*final(self))),
            final(self).completions@.len() == 0,
            final(self).completion_index == 0,
            texts_same(*old(self), *final(self)),
            final(self).ssid == old(self).ssid,
            final(self).eap_method == old(self).eap_method,
            final(self).phase2_auth == old(self).phase2_auth,
            final(self).error_message == old(self).error_message,
            final(self).blink_counter == old(self).blink_counter,
    {
        self.focused_field = self.focused_field.prev();
        self.update_cursor_for_field();
    }

    /// Puts the cursor at the end of the focused text and clears the
    /// completions.
    fn update_cursor_for_field(&mut self)
        requires
            lengths_fit(*old(self)),
        ensures
            final(self).cursor_pos == byte_len(focused_text(*old(self))),
            final(self).completions@.len() == 0,
            *final(self) == (EapFormState {
                cursor_pos: final(self).cursor_pos,
                completions: final(self).completions,
                completion_index: 0,
                ..*old(self)
            }),
    {
        self.cursor_pos = str_byte_len(self.current_text());
        self.clear_completions();
    }

    /// Validates the form, given whether the CA certificate path exists:
    /// the message for the first problem found, or `None`.
    pub fn validate_with(&self, ca_exists: bool) -> (r: Option<String>)
        ensures
            r matches Some(m) ==> validation_result(*self, ca_exists) == Some(m@),
            r is None ==> validation_result(*self, ca_exists) is None,
    {
        if is_blank(self.identity.as_str()) {
            return Some(String::from_str("Username is required"));
        }
        if self.password.as_str().is_empty() {
            return Some(String::from_str("Password is required"));
        }
        if !self.ca_cert_path.as_str().is_empty() && !ca_exists {
            let mut m = String::from_str("CA certificate not found: ");
            m.append(self.ca_cert_path.as_str());
            return Some(m);
        }
        None
    }

    /// Validates the form: "Username is required" when the identity is
    /// blank, "Password is required" when the password is empty, the
    /// not-found message when a CA certificate path is given that does not
    /// exist on disk, `None` otherwise.
    pub fn validate(&self) -> (r: Option<String>)
        ensures
            (exists|ca_exists: bool|
                {
                    &&& (r matches Some(m) ==> validation_result(*self, ca_exists) == Some(m@))
                    &&& (r is None ==> validation_result(*self, ca_exists) is None)
                }),
    {
        let ca_exists = if self.ca_cert_path.as_str().is_empty() {
            true
        } else {
            host::path_exists(self.ca_cert_path.as_str())
        };
        self.validate_with(ca_exists)
    }

    /// Advances the blink counter, wrapping around at `u32::MAX`.
    pub fn tick_blink(&mut self)
        ensures
            final(self).blink_counter == if old(self).blink_counter == u32::MAX {
                0
            } else {
                (old(self).blink_counter + 1) as u32
            },
            *final(self) == (EapFormState {
                blink_counter: final(self).blink_counter,
                ..*old(self)
            }),
    {
        self.blink_counter = self.blink_counter.wrapping_add(1);
    }

    /// Whether the cursor shows: on for thirty ticks, off for the next
    /// thirty.
    pub fn cursor_visible(&self) -> (b: bool)
        ensures
            b == ((self.blink_counter / 30) % 2 == 0),
    {
        (self.blink_counter / 30) % 2 == 0
    }
}

// ---------------------------------------------------------------------
// Laws
// ---------------------------------------------------------------------

/// With two methods, cycling forward and backward agree, and two steps
/// return to the start.
pub proof fn law_eap_method_cycle(m: EapMethod)
    ensures
        m.next_spec() == m.prev_spec(),
        m.next_spec().next_spec() == m,
        m.next_spec() != m,
{
}

/// Cycling the phase 2 method back undoes cycling it forward, and the
/// other way round.
pub proof fn law_phase2_prev_undoes_next(a: Phase2Auth)
    ensures
        a.next_spec().prev_spec() == a,
        a.prev_spec().next_spec() == a,
{
}

/// Five forward steps visit every phase 2 method once, in the order of
/// `Phase2Auth::all`, and return to the start.
pub proof fn law_phase2_cycle_visits_all(a: Phase2Auth)
    ensures
        a.next_spec().next_spec().next_spec().next_spec().next_spec() == a,
        ({
            let order = seq![
                Phase2Auth::Mschapv2,
                Phase2Auth::Mschap,
                Phase2Auth::Pap,
                Phase2Auth::Chap,
                Phase2Auth::Gtc,
            ];
            forall|i: int| 0 <= i < 5 ==> #[trigger] order[i].next_spec() == order[(i + 1) % 5]
        }),
{
}

/// Moving focus back undoes moving it forward, and the other way round.
pub proof fn law_focus_prev_undoes_next(f: EapFormField)
    ensures
        f.next_spec().prev_spec() == f,
        f.prev_spec().next_spec() == f,
{
}

/// Eight forward focus moves visit every field and return to the start.
pub proof fn law_focus_cycle_length(f: EapFormField)
    ensures
        f.next_spec().next_spec().next_spec().next_spec().next_spec().next_spec().next_spec().next_spec()
            == f,
{
}

/// Every field is exactly one of: a text field, a dropdown, a button.
pub proof fn law_field_kinds_partition(f: EapFormField)
    ensures
        (f.is_text_spec() as int) + (f.is_dropdown_spec() as int) + (f.is_button_spec() as int)
            == 1,
{
}

/// Inserting a character at a boundary and then deleting the character
/// before the advanced cursor gives back the text: the cursor after the
/// insertion is within the new text, the byte before it is a boundary, and
/// removing the character there restores the text.
pub proof fn law_backspace_undoes_insert(t: Seq<char>, pos: int, c: char)
    requires
        is_boundary(t, pos),
    ensures
        ({
            let t2 = t.insert(char_index(t, pos), c);
            &&& 0 < pos + 1 <= byte_len(t2)
            &&& is_boundary(t2, pos)
            &&& t2.remove(char_index(t2, pos)) == t
        }),
{
    lemma_char_index(t, pos);
    let k = char_index(t, pos);
    let t2 = t.insert(k, c);
    assert(t2.take(k) =~= t.take(k));
    assert(byte_len(t2.take(k)) == pos);
    assert(is_boundary(t2, pos));
    lemma_char_index(t2, pos);
    assert(char_index(t2, pos) == k);
    assert(t2.remove(k) =~= t);
    lemma_byte_len_take_step(t2, k);
    if k + 1 < t2.len() {
        lemma_byte_len_take_mono(t2, k + 1, t2.len() as int);
    }
    assert(t2.take(t2.len() as int) =~= t2);
}

/// The cursor blinks with a period of sixty ticks: thirty ticks later its
/// visibility has flipped (as long as the counter does not wrap).
pub proof fn law_cursor_blink_period(b: u32)
    requires
        b + 30 <= u32::MAX,
    ensures
        (((b + 30) as u32 / 30) % 2 == 0) != ((b / 30) % 2 == 0),
{
    assert((b + 30) as u32 / 30 == b / 30 + 1);
}

} // verus!
