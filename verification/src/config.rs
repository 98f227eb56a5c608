//! Immutable session configuration.

use vstd::prelude::*;

verus! {

/// The mathematical value of a [`SessionConfig`]: every string as its
/// character sequence.
pub ghost struct ConfigView {
    pub name: Option<Seq<char>>,
    pub resume: Option<Seq<char>>,
    pub model: Option<Seq<char>>,
    pub temperature: u32,
    pub max_tokens: Option<u32>,
    pub role: Seq<char>,
    pub directory: Seq<char>,
}

/// One session's configuration, created once and never altered.
///
/// `temperature` is held in hundredths of a unit, so that the default of
/// seven tenths is the integer 70; the command line prints it back as a
/// decimal fraction.
#[derive(Debug)]
pub struct SessionConfig {
    pub name: Option<String>,
    pub resume: Option<String>,
    pub model: Option<String>,
    pub temperature: u32,
    pub max_tokens: Option<u32>,
    pub role: String,
    pub directory: String,
}

impl View for SessionConfig {
    type V = ConfigView;

    open spec fn view(&self) -> ConfigView {
        ConfigView {
            name: self.name.deep_view(),
            resume: self.resume.deep_view(),
            model: self.model.deep_view(),
            temperature: self.temperature,
            max_tokens: self.max_tokens,
            role: self.role@,
            directory: self.directory@,
        }
    }
}

/// The temperature applied when none is given: seven tenths, in hundredths.
pub const DEFAULT_TEMPERATURE: u32 = 70;

/// The configuration that `create` stores for the given fields, defaults
/// applied: no resume target, temperature seven tenths, role "developer".
pub open spec fn created_config(
    name: Option<Seq<char>>,
    directory: Seq<char>,
    model: Option<Seq<char>>,
    temperature: Option<u32>,
    max_tokens: Option<u32>,
    role: Option<Seq<char>>,
) -> ConfigView {
    ConfigView {
        name: name,
        resume: None,
        model: model,
        temperature: match temperature {
            Some(t) => t,
            None => DEFAULT_TEMPERATURE,
        },
        max_tokens: max_tokens,
        role: match role {
            Some(r) => r,
            None => "developer"@,
        },
        directory: directory,
    }
}

/// The configuration that `resume` stores: as `created_config`, but the
/// resume target is the given name and the name field stays empty.
pub open spec fn resumed_config(
    session_name: Seq<char>,
    directory: Seq<char>,
    model: Option<Seq<char>>,
    temperature: Option<u32>,
    max_tokens: Option<u32>,
    role: Option<Seq<char>>,
) -> ConfigView {
    ConfigView {
        name: None,
        resume: Some(session_name),
        model: model,
        temperature: match temperature {
            Some(t) => t,
            None => DEFAULT_TEMPERATURE,
        },
        max_tokens: max_tokens,
        role: match role {
            Some(r) => r,
            None => "developer"@,
        },
        directory: directory,
    }
}

/// A copy of an optional string, equal to the source value.
fn clone_opt_string(o: &Option<String>) -> (r: Option<String>)
    ensures
        r == *o,
{
    match o {
        Some(s) => Some(s.clone()),
        None => None,
    }
}

impl Clone for SessionConfig {
    /// An exact copy: every field keeps its value.
    fn clone(&self) -> (r: Self)
        ensures
            r == *self,
    {
        SessionConfig {
            name: clone_opt_string(&self.name),
            resume: clone_opt_string(&self.resume),
            model: clone_opt_string(&self.model),
            temperature: self.temperature,
            max_tokens: self.max_tokens,
            role: self.role.clone(),
            directory: self.directory.clone(),
        }
    }
}

impl Default for SessionConfig {
    /// The default configuration: no name, no resume target, no model, the
    /// default temperature and role, no token bound, and an empty working
    /// directory for the host to fill in.
    fn default() -> (r: Self)
        ensures
            r@ == created_config(None, Seq::<char>::empty(), None, None, None, None),
    {
        SessionConfig {
            name: None,
            resume: None,
            model: None,
            temperature: DEFAULT_TEMPERATURE,
            max_tokens: None,
            role: String::from_str("developer"),
            directory: String::new(),
        }
    }
}

} // verus!
