//! Logging policy.

use crate::text::{clone_opt_text, opt_text};
use vstd::prelude::*;
use vstd::string::StringExecFns;

verus! {

/// Where log files go and how much is logged.
#[derive(Debug)]
pub struct LoggingOptions {
    pub dir: String,
    /// Filter directive; the logger's own default when absent.
    pub level: Option<String>,
}

/// Mathematical model of [`LoggingOptions`].
pub struct LoggingOptionsView {
    pub dir: Seq<char>,
    pub level: Option<Seq<char>>,
}

impl View for LoggingOptions {
    type V = LoggingOptionsView;

    open spec fn view(&self) -> LoggingOptionsView {
        LoggingOptionsView { dir: self.dir@, level: opt_text(self.level) }
    }
}

impl LoggingOptionsView {
    /// Files under `/tmp/engram/logs`, no level of its own.
    pub open spec fn default_value() -> LoggingOptionsView {
        LoggingOptionsView { dir: "/tmp/engram/logs"@, level: None }
    }
}

impl Default for LoggingOptions {
    fn default() -> (r: LoggingOptions)
        ensures
            r@ == LoggingOptionsView::default_value(),
    {
        LoggingOptions { dir: String::from_str("/tmp/engram/logs"), level: None }
    }
}

impl Clone for LoggingOptions {
    fn clone(&self) -> (r: LoggingOptions)
        ensures
            r@ == self@,
    {
        LoggingOptions { dir: self.dir.clone(), level: clone_opt_text(&self.level) }
    }
}

} // verus!
