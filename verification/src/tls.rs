//! TLS posture of a wire-protocol listener.

use crate::text::{pick, pick_text, text_or, value_or};
use vstd::prelude::*;

verus! {

/// How strictly a listener insists on TLS.
#[derive(Clone, Copy, Debug, PartialEq, Eq, Structural)]
pub enum TlsMode {
    Disable,
    Prefer,
    Require,
    VerifyCa,
    VerifyFull,
}

/// TLS settings of one listener.
#[derive(Debug)]
pub struct TlsOption {
    pub mode: TlsMode,
    pub cert_path: String,
    pub key_path: String,
}

/// Mathematical model of a [`TlsOption`].
pub struct TlsOptionView {
    pub mode: TlsMode,
    pub cert_path: Seq<char>,
    pub key_path: Seq<char>,
}

impl View for TlsOption {
    type V = TlsOptionView;

    open spec fn view(&self) -> TlsOptionView {
        TlsOptionView { mode: self.mode, cert_path: self.cert_path@, key_path: self.key_path@ }
    }
}

impl TlsOptionView {
    /// TLS switched off, no certificate, no key.
    pub open spec fn default_value() -> TlsOptionView {
        TlsOptionView { mode: TlsMode::Disable, cert_path: Seq::empty(), key_path: Seq::empty() }
    }

    /// These settings with each given part put in place; a part that is not
    /// given stays as it is.
    pub open spec fn overlaid(
        self,
        mode: Option<TlsMode>,
        cert_path: Option<String>,
        key_path: Option<String>,
    ) -> TlsOptionView {
        TlsOptionView {
            mode: value_or(mode, self.mode),
            cert_path: text_or(cert_path, self.cert_path),
            key_path: text_or(key_path, self.key_path),
        }
    }
}

impl Default for TlsOption {
    fn default() -> (r: TlsOption)
        ensures
            r@ == TlsOptionView::default_value(),
    {
        TlsOption { mode: TlsMode::Disable, cert_path: String::new(), key_path: String::new() }
    }
}

impl Clone for TlsOption {
    fn clone(&self) -> (r: TlsOption)
        ensures
            r@ == self@,
    {
        TlsOption {
            mode: self.mode,
            cert_path: self.cert_path.clone(),
            key_path: self.key_path.clone(),
        }
    }
}

impl TlsOption {
    /// Builds TLS settings from optional parts; an absent part has its
    /// default.
    pub fn new(mode: Option<TlsMode>, cert_path: Option<String>, key_path: Option<String>) -> (r:
        TlsOption)
        ensures
            r@ == TlsOptionView::default_value().overlaid(mode, cert_path, key_path),
    {
        TlsOption::default().overlay(&mode, &cert_path, &key_path)
    }

    /// Puts each given part in place of the part these settings have.
    pub fn overlay(
        self,
        mode: &Option<TlsMode>,
        cert_path: &Option<String>,
        key_path: &Option<String>,
    ) -> (r: TlsOption)
        ensures
            r@ == self@.overlaid(*mode, *cert_path, *key_path),
    {
        TlsOption {
            mode: pick(mode, self.mode),
            cert_path: pick_text(cert_path, self.cert_path),
            key_path: pick_text(key_path, self.key_path),
        }
    }
}

} // verus!
