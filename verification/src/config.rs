//! The named options of an invocation and the configuration they build.

use vstd::prelude::*;

verus! {

/// The names that may stand on the left of `=` in an invocation.
#[derive(Clone, Copy, Debug, PartialEq, Eq, Structural)]
pub enum ArgName {
    Args,
    Prefix,
    Suffix,
    CargoPrefix,
    CargoSuffix,
    Fallback,
}

impl ArgName {
    /// The identifier by which the option is written.
    pub open spec fn spec_text(self) -> Seq<char> {
        match self {
            ArgName::Args => "args"@,
            ArgName::Prefix => "prefix"@,
            ArgName::Suffix => "suffix"@,
            ArgName::CargoPrefix => "cargo_prefix"@,
            ArgName::CargoSuffix => "cargo_suffix"@,
            ArgName::Fallback => "fallback"@,
        }
    }

    /// The option written as `name`, if there is one.
    pub open spec fn spec_from_text(name: Seq<char>) -> Option<ArgName> {
        if name == "args"@ {
            Some(ArgName::Args)
        } else if name == "prefix"@ {
            Some(ArgName::Prefix)
        } else if name == "suffix"@ {
            Some(ArgName::Suffix)
        } else if name == "cargo_prefix"@ {
            Some(ArgName::CargoPrefix)
        } else if name == "cargo_suffix"@ {
            Some(ArgName::CargoSuffix)
        } else if name == "fallback"@ {
            Some(ArgName::Fallback)
        } else {
            None
        }
    }

    pub fn text(self) -> (r: &'static str)
        ensures
            r@ == self.spec_text(),
    {
        match self {
            ArgName::Args => "args",
            ArgName::Prefix => "prefix",
            ArgName::Suffix => "suffix",
            ArgName::CargoPrefix => "cargo_prefix",
            ArgName::CargoSuffix => "cargo_suffix",
            ArgName::Fallback => "fallback",
        }
    }

    pub fn from_text(name: &str) -> (r: Option<ArgName>)
        ensures
            r == Self::spec_from_text(name@),
    {
        let name = name.to_owned();
        if name == "args".to_owned() {
            Some(ArgName::Args)
        } else if name == "prefix".to_owned() {
            Some(ArgName::Prefix)
        } else if name == "suffix".to_owned() {
            Some(ArgName::Suffix)
        } else if name == "cargo_prefix".to_owned() {
            Some(ArgName::CargoPrefix)
        } else if name == "cargo_suffix".to_owned() {
            Some(ArgName::CargoSuffix)
        } else if name == "fallback".to_owned() {
            Some(ArgName::Fallback)
        } else {
            None
        }
    }

    /// Reading a name back from its own text gives the name.
    pub proof fn lemma_text_round_trip(self)
        ensures
            Self::spec_from_text(self.spec_text()) == Some(self),
    {
        reveal_strlit("args");
        reveal_strlit("prefix");
        reveal_strlit("suffix");
        reveal_strlit("cargo_prefix");
        reveal_strlit("cargo_suffix");
        reveal_strlit("fallback");
        assert("args"@.len() == 4);
        assert("prefix"@[0] == 'p');
        assert("suffix"@[0] == 's');
        assert("cargo_prefix"@[6] == 'p');
        assert("cargo_suffix"@[6] == 's');
        assert("fallback"@.len() == 8);
    }
}

/// What an invocation configured. `None` means that the option was not
/// written; each option can be written at most once, so a field holds at
/// most one value.
#[derive(Clone, Debug, PartialEq, Eq)]
pub struct Configuration {
    /// The arguments handed to `git describe`.
    pub args: Option<Vec<String>>,
    /// Put in front of the described version.
    pub prefix: Option<String>,
    /// Put behind the described version.
    pub suffix: Option<String>,
    /// Put in front of the package version; its presence permits that fallback.
    pub cargo_prefix: Option<String>,
    /// Put behind the package version; its presence permits that fallback.
    pub cargo_suffix: Option<String>,
    /// Used as it stands when everything else fails.
    pub fallback: Option<String>,
}

/// The mathematical content of a [`Configuration`].
pub struct ConfigurationView {
    pub args: Option<Seq<Seq<char>>>,
    pub prefix: Option<Seq<char>>,
    pub suffix: Option<Seq<char>>,
    pub cargo_prefix: Option<Seq<char>>,
    pub cargo_suffix: Option<Seq<char>>,
    pub fallback: Option<Seq<char>>,
}

/// The value written for an option: a list for `args`, a text for the others.
pub enum ValueView {
    List(Seq<Seq<char>>),
    Text(Seq<char>),
}

/// The arguments of `git describe` where `args` was not written.
pub open spec fn default_args() -> Seq<Seq<char>> {
    seq!["--always"@, "--dirty=-modified"@]
}

/// The text of an optional string, empty where it is absent.
pub open spec fn text_or_empty(text: Option<Seq<char>>) -> Seq<char> {
    match text {
        Some(t) => t,
        None => Seq::empty(),
    }
}

/// An optional text as the value of an option.
pub open spec fn text_value(text: Option<Seq<char>>) -> Option<ValueView> {
    match text {
        Some(t) => Some(ValueView::Text(t)),
        None => None,
    }
}

impl ConfigurationView {
    /// The configuration of an invocation without arguments.
    pub open spec fn empty() -> ConfigurationView {
        ConfigurationView {
            args: None,
            prefix: None,
            suffix: None,
            cargo_prefix: None,
            cargo_suffix: None,
            fallback: None,
        }
    }

    /// Whether the option `name` was written.
    pub open spec fn is_set(self, name: ArgName) -> bool {
        match name {
            ArgName::Args => self.args is Some,
            ArgName::Prefix => self.prefix is Some,
            ArgName::Suffix => self.suffix is Some,
            ArgName::CargoPrefix => self.cargo_prefix is Some,
            ArgName::CargoSuffix => self.cargo_suffix is Some,
            ArgName::Fallback => self.fallback is Some,
        }
    }

    /// What was written for the option `name`, if it was written.
    pub open spec fn get(self, name: ArgName) -> Option<ValueView> {
        match name {
            ArgName::Args => match self.args {
                Some(list) => Some(ValueView::List(list)),
                None => None,
            },
            ArgName::Prefix => text_value(self.prefix),
            ArgName::Suffix => text_value(self.suffix),
            ArgName::CargoPrefix => text_value(self.cargo_prefix),
            ArgName::CargoSuffix => text_value(self.cargo_suffix),
            ArgName::Fallback => text_value(self.fallback),
        }
    }

    /// Whether `value` has the shape that the option `name` takes.
    pub open spec fn accepts(name: ArgName, value: ValueView) -> bool {
        (name == ArgName::Args) <==> (value is List)
    }

    /// The configuration with the option `name` written as `value`.
    pub open spec fn with(self, name: ArgName, value: ValueView) -> ConfigurationView {
        match (name, value) {
            (ArgName::Args, ValueView::List(list)) => ConfigurationView { args: Some(list), ..self },
            (ArgName::Prefix, ValueView::Text(text)) => ConfigurationView { prefix: Some(text), ..self },
            (ArgName::Suffix, ValueView::Text(text)) => ConfigurationView { suffix: Some(text), ..self },
            (ArgName::CargoPrefix, ValueView::Text(text)) => ConfigurationView {
                cargo_prefix: Some(text),
                ..self
            },
            (ArgName::CargoSuffix, ValueView::Text(text)) => ConfigurationView {
                cargo_suffix: Some(text),
                ..self
            },
            (ArgName::Fallback, ValueView::Text(text)) => ConfigurationView { fallback: Some(text), ..self },
            _ => self,
        }
    }

    /// The arguments that `git describe` is run with.
    pub open spec fn command_args(self) -> Seq<Seq<char>> {
        match self.args {
            Some(args) => args,
            None => default_args(),
        }
    }

    /// Whether the package version may stand in for a failed query.
    pub open spec fn permits_package_fallback(self) -> bool {
        self.cargo_prefix is Some || self.cargo_suffix is Some
    }
}

/// Writing an option sets that option to the value and leaves the others
/// as they were.
pub proof fn lemma_with_sets_one(config: ConfigurationView, name: ArgName, value: ValueView, other: ArgName)
    requires
        ConfigurationView::accepts(name, value),
    ensures
        config.with(name, value).get(name) == Some(value),
        config.with(name, value).is_set(name),
        other != name ==> config.with(name, value).get(other) == config.get(other),
        other != name ==> config.with(name, value).is_set(other) == config.is_set(other),
{
}

/// Two configurations in which every option is written alike are the same.
pub proof fn lemma_configuration_extensional(a: ConfigurationView, b: ConfigurationView)
    requires
        forall|name: ArgName| a.get(name) == b.get(name),
    ensures
        a == b,
{
    assert(a.get(ArgName::Args) == b.get(ArgName::Args));
    assert(a.get(ArgName::Prefix) == b.get(ArgName::Prefix));
    assert(a.get(ArgName::Suffix) == b.get(ArgName::Suffix));
    assert(a.get(ArgName::CargoPrefix) == b.get(ArgName::CargoPrefix));
    assert(a.get(ArgName::CargoSuffix) == b.get(ArgName::CargoSuffix));
    assert(a.get(ArgName::Fallback) == b.get(ArgName::Fallback));
}

impl View for Configuration {
    type V = ConfigurationView;

    open spec fn view(&self) -> ConfigurationView {
        ConfigurationView {
            args: self.args.deep_view(),
            prefix: self.prefix.deep_view(),
            suffix: self.suffix.deep_view(),
            cargo_prefix: self.cargo_prefix.deep_view(),
            cargo_suffix: self.cargo_suffix.deep_view(),
            fallback: self.fallback.deep_view(),
        }
    }
}

impl Configuration {
    /// The configuration of an invocation without arguments.
    pub fn new() -> (config: Configuration)
        ensures
            config@ == ConfigurationView::empty(),
    {
        Configuration {
            args: None,
            prefix: None,
            suffix: None,
            cargo_prefix: None,
            cargo_suffix: None,
            fallback: None,
        }
    }

    /// Whether the option `name` was written.
    pub fn is_set(&self, name: ArgName) -> (set: bool)
        ensures
            set == self@.is_set(name),
    {
        match name {
            ArgName::Args => self.args.is_some(),
            ArgName::Prefix => self.prefix.is_some(),
            ArgName::Suffix => self.suffix.is_some(),
            ArgName::CargoPrefix => self.cargo_prefix.is_some(),
            ArgName::CargoSuffix => self.cargo_suffix.is_some(),
            ArgName::Fallback => self.fallback.is_some(),
        }
    }

    /// The arguments that `git describe` is run with: those written as
    /// `args`, else `--always` and `--dirty=-modified`.
    pub fn command_args(&self) -> (args: Vec<String>)
        ensures
            args.deep_view() == self@.command_args(),
    {
        match &self.args {
            Some(list) => clone_strings(list),
            None => {
                let mut args: Vec<String> = Vec::new();
                args.push("--always".to_owned());
                args.push("--dirty=-modified".to_owned());
                assert(args.deep_view() =~= default_args());
                args
            },
        }
    }

    /// Whether the package version may stand in for a failed query: either
    /// of `cargo_prefix` and `cargo_suffix` was written.
    pub fn permits_package_fallback(&self) -> (permitted: bool)
        ensures
            permitted == self@.permits_package_fallback(),
    {
        self.cargo_prefix.is_some() || self.cargo_suffix.is_some()
    }
}

/// A copy of `list` with the same texts in the same order.
fn clone_strings(list: &Vec<String>) -> (copy: Vec<String>)
    ensures
        copy.deep_view() == list.deep_view(),
{
    let mut copy: Vec<String> = Vec::new();
    let mut i: usize = 0;
    while i < list.len()
        invariant
            i <= list.len(),
            copy.len() == i,
            forall|k: int| 0 <= k < i ==> copy[k]@ == list[k]@,
        decreases list.len() - i,
    {
        copy.push(list[i].clone());
        i += 1;
    }
    assert(copy.deep_view() =~= list.deep_view());
    copy
}

} // verus!
