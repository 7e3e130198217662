//! The application configuration: the selected model, display flags, and
//! the bound on the persisted session context. Values read from the
//! configuration file override the defaults field by field; the file itself
//! is read and written by the surrounding process.

use vstd::prelude::*;

use crate::text::dec_str_spec;
use crate::text::str_eq;
use crate::text::u64_to_string;

verus! {

/// The configuration values the library acts on.
pub struct AppConfig {
    pub model: String,
    pub show_progress: bool,
    pub show_context: bool,
    pub markdown: bool,
    pub stored_context_length: usize,
}

/// The mathematical value of an [`AppConfig`].
#[verifier::ext_equal]
pub struct AppConfigView {
    pub model: Seq<char>,
    pub show_progress: bool,
    pub show_context: bool,
    pub markdown: bool,
    pub stored_context_length: usize,
}

impl View for AppConfig {
    type V = AppConfigView;

    open spec fn view(&self) -> AppConfigView {
        AppConfigView {
            model: self.model@,
            show_progress: self.show_progress,
            show_context: self.show_context,
            markdown: self.markdown,
            stored_context_length: self.stored_context_length,
        }
    }
}

/// The default configuration.
pub open spec fn default_config_spec() -> AppConfigView {
    AppConfigView {
        model: "gpt-4o"@,
        show_progress: false,
        show_context: false,
        markdown: false,
        stored_context_length: 20,
    }
}

impl Default for AppConfig {
    /// The defaults: `gpt-4o`, every flag off, twenty stored turns.
    fn default() -> (r: Self)
        ensures
            r@ == default_config_spec(),
    {
        AppConfig {
            model: "gpt-4o".to_owned(),
            show_progress: false,
            show_context: false,
            markdown: false,
            stored_context_length: 20,
        }
    }
}

impl Clone for AppConfig {
    /// A clone carries the same view.
    fn clone(&self) -> (r: Self)
        ensures
            r@ == self@,
    {
        AppConfig {
            model: self.model.clone(),
            show_progress: self.show_progress,
            show_context: self.show_context,
            markdown: self.markdown,
            stored_context_length: self.stored_context_length,
        }
    }
}

/// A configuration as far as a file provides it: each absent field falls
/// back to its default.
pub struct PartialConfig {
    pub model: Option<String>,
    pub show_progress: Option<bool>,
    pub show_context: Option<bool>,
    pub markdown: Option<bool>,
    pub stored_context_length: Option<usize>,
}

/// Merge file-provided values over the defaults, field by field.
pub fn merge_config(p: PartialConfig) -> (r: AppConfig)
    ensures
        r@.model == match p.model {
            Option::Some(m) => m@,
            Option::None => default_config_spec().model,
        },
        r@.show_progress == match p.show_progress {
            Option::Some(b) => b,
            Option::None => default_config_spec().show_progress,
        },
        r@.show_context == match p.show_context {
            Option::Some(b) => b,
            Option::None => default_config_spec().show_context,
        },
        r@.markdown == match p.markdown {
            Option::Some(b) => b,
            Option::None => default_config_spec().markdown,
        },
        r@.stored_context_length == match p.stored_context_length {
            Option::Some(n) => n,
            Option::None => default_config_spec().stored_context_length,
        },
{
    let d = AppConfig::default();
    AppConfig {
        model: match p.model {
            Option::Some(m) => m,
            Option::None => d.model,
        },
        show_progress: match p.show_progress {
            Option::Some(b) => b,
            Option::None => d.show_progress,
        },
        show_context: match p.show_context {
            Option::Some(b) => b,
            Option::None => d.show_context,
        },
        markdown: match p.markdown {
            Option::Some(b) => b,
            Option::None => d.markdown,
        },
        stored_context_length: match p.stored_context_length {
            Option::Some(n) => n,
            Option::None => d.stored_context_length,
        },
    }
}

/// The text of a flag value.
pub open spec fn bool_str_spec(b: bool) -> Seq<char> {
    if b {
        "true"@
    } else {
        "false"@
    }
}

fn bool_str(b: bool) -> (r: &'static str)
    ensures
        r@ == bool_str_spec(b),
{
    if b {
        "true"
    } else {
        "false"
    }
}

/// The flag a configuration value names, if any: exactly `true` or `false`.
pub fn parse_bool(s: &str) -> (r: Option<bool>)
    ensures
        match r {
            Some(b) => s@ == bool_str_spec(b) && s@ != bool_str_spec(!b),
            None => s@ != bool_str_spec(true) && s@ != bool_str_spec(false),
        },
{
    proof {
        reveal_strlit("true");
        reveal_strlit("false");
        assert(("true"@).len() != ("false"@).len());
    }
    if str_eq(s, "true") {
        Some(true)
    } else if str_eq(s, "false") {
        Some(false)
    } else {
        None
    }
}

/// What became of a configuration update.
#[derive(Clone, Copy, PartialEq, Eq, Structural, Debug)]
pub enum ApplyOutcome {
    /// The value was stored.
    Applied,
    /// The key names no settable configuration entry.
    UnknownKey,
    /// The key takes a flag and the value is neither `true` nor `false`.
    InvalidValue,
}

/// The text a configuration key reads back, on a given configuration.
pub open spec fn config_value_spec(c: AppConfigView, key: Seq<char>) -> Seq<char> {
    if key == "model"@ {
        c.model
    } else if key == "show_progress"@ {
        bool_str_spec(c.show_progress)
    } else if key == "show_context"@ {
        bool_str_spec(c.show_context)
    } else if key == "markdown"@ {
        bool_str_spec(c.markdown)
    } else if key == "stored_context_length"@ {
        dec_str_spec(c.stored_context_length as nat)
    } else {
        "Invalid configuration key"@
    }
}

impl AppConfig {
    /// Store one configuration value under its key. `model` takes any text;
    /// the display flags take exactly `true` or `false`; any other key is
    /// unknown. The configuration is untouched unless the value is stored.
    pub fn apply_value(&mut self, key: &str, value: &str) -> (r: ApplyOutcome)
        ensures
            key@ == "model"@ ==> r == ApplyOutcome::Applied && final(self)@ == (AppConfigView {
                model: value@,
                ..old(self)@
            }),
            (key@ == "show_progress"@ || key@ == "show_context"@ || key@ == "markdown"@) ==> (
            match r {
                ApplyOutcome::Applied => (value@ == bool_str_spec(true) || value@ == bool_str_spec(
                    false,
                )) && final(self)@ == if key@ == "show_progress"@ {
                    AppConfigView { show_progress: value@ == bool_str_spec(true), ..old(self)@ }
                } else if key@ == "show_context"@ {
                    AppConfigView { show_context: value@ == bool_str_spec(true), ..old(self)@ }
                } else {
                    AppConfigView { markdown: value@ == bool_str_spec(true), ..old(self)@ }
                },
                ApplyOutcome::InvalidValue => value@ != bool_str_spec(true) && value@
                    != bool_str_spec(false) && final(self)@ == old(self)@,
                ApplyOutcome::UnknownKey => false,
            }),
            (key@ != "model"@ && key@ != "show_progress"@ && key@ != "show_context"@ && key@
                != "markdown"@) ==> r == ApplyOutcome::UnknownKey && final(self)@ == old(self)@,
    {
        proof {
            reveal_strlit("model");
            reveal_strlit("show_progress");
            reveal_strlit("show_context");
            reveal_strlit("markdown");
            assert(("model"@).len() == 5 && ("show_progress"@).len() == 13 && (
            "show_context"@).len() == 12 && ("markdown"@).len() == 8);
        }
        if str_eq(key, "model") {
            self.model = value.to_owned();
            ApplyOutcome::Applied
        } else if str_eq(key, "show_progress") {
            match parse_bool(value) {
                Some(b) => {
                    self.show_progress = b;
                    ApplyOutcome::Applied
                },
                None => ApplyOutcome::InvalidValue,
            }
        } else if str_eq(key, "show_context") {
            match parse_bool(value) {
                Some(b) => {
                    self.show_context = b;
                    ApplyOutcome::Applied
                },
                None => ApplyOutcome::InvalidValue,
            }
        } else if str_eq(key, "markdown") {
            match parse_bool(value) {
                Some(b) => {
                    self.markdown = b;
                    ApplyOutcome::Applied
                },
                None => ApplyOutcome::InvalidValue,
            }
        } else {
            ApplyOutcome::UnknownKey
        }
    }
}

/// The configuration with the directory its file lives in.
pub struct ConfigManager {
    pub config: AppConfig,
    pub config_directory: String,
}

impl ConfigManager {
    /// A manager over an already loaded configuration.
    pub fn with_config(config: AppConfig, config_directory: String) -> (r: ConfigManager)
        ensures
            r.config@ == config@,
            r.config_directory@ == config_directory@,
    {
        ConfigManager { config, config_directory }
    }

    /// The text a configuration key reads back: the stored value, or a fixed
    /// notice for an unknown key.
    pub fn get_config_value(&self, key: &str) -> (r: String)
        ensures
            r@ == config_value_spec(self.config@, key@),
    {
        if str_eq(key, "model") {
            self.config.model.clone()
        } else if str_eq(key, "show_progress") {
            bool_str(self.config.show_progress).to_owned()
        } else if str_eq(key, "show_context") {
            bool_str(self.config.show_context).to_owned()
        } else if str_eq(key, "markdown") {
            bool_str(self.config.markdown).to_owned()
        } else if str_eq(key, "stored_context_length") {
            u64_to_string(self.config.stored_context_length as u64)
        } else {
            "Invalid configuration key".to_owned()
        }
    }
}

} // verus!
