//! Who an application is: its name and its author.

use vstd::prelude::*;
use vstd::std_specs::cmp::PartialEqSpecImpl;

verus! {

/// `str`'s `==` from std: two string slices are equal exactly when they hold
/// the same characters.
pub assume_specification[ <str as PartialEq>::eq ](a: &str, b: &str) -> (equal: bool)
    ensures
        equal == (a@ == b@),
;

/// What an [`AppInfo`] stands for: the two texts by which an application's
/// directories are told apart from those of every other application.
pub ghost struct AppIdentity {
    /// Name of the app.
    pub name: Seq<char>,
    /// Author of the app.
    pub author: Seq<char>,
}

/// Trait for a struct that holds information about your app.
///
/// # Caveats
/// Functions that resolve directories sanitize any characters that could be
/// non-filename-safe from `name` and `author`. The resulting paths will be
/// more human-readable if you stick to **letters, numbers, spaces, hyphens,
/// underscores, and periods** for both properties.
///
/// The `author` property is currently only used by Windows, as macOS and *nix
/// specifications don't require it. Make sure your `name` string is unique!
pub trait AppInfo {
    /// The application that the value describes. Both accessors report it
    /// as it is, on every call. A verified implementation says what it is;
    /// the default says nothing, so that unverified code can implement the
    /// trait with the two accessors alone.
    open spec fn identity(&self) -> AppIdentity {
        arbitrary()
    }

    /// Name of your app (e.g. "Hearthstone").
    fn name(&self) -> (name: &str)
        ensures
            name@ == self.identity().name,
    ;

    /// Author of your app (e.g. "Blizzard").
    fn author(&self) -> (author: &str)
        ensures
            author@ == self.identity().author,
    ;
}

/// Struct that holds fixed information about your app.
///
/// It's recommended to create a single `const` instance of `StaticAppInfo`.
#[derive(Debug, Hash)]
pub struct StaticAppInfo {
    /// Name of your app (e.g. "Hearthstone").
    pub name: &'static str,
    /// Author of your app (e.g. "Blizzard").
    pub author: &'static str,
}

/// Struct that holds fixed information about your app for when it
/// can't be determined at compile time.  For instance, a library might
/// look for data in a location provided by a user or loaded from a
/// config file.
#[derive(Debug, Hash)]
pub struct OwningAppInfo {
    /// Name of your app (e.g. "Hearthstone").
    pub name: String,
    /// Author of your app (e.g. "Blizzard").
    pub author: String,
}

impl View for StaticAppInfo {
    type V = AppIdentity;

    open spec fn view(&self) -> AppIdentity {
        AppIdentity { name: self.name@, author: self.author@ }
    }
}

impl View for OwningAppInfo {
    type V = AppIdentity;

    open spec fn view(&self) -> AppIdentity {
        AppIdentity { name: self.name@, author: self.author@ }
    }
}

impl AppInfo for StaticAppInfo {
    open spec fn identity(&self) -> AppIdentity {
        self@
    }

    fn name(&self) -> (name: &str)
        ensures
            name == self.name,
    {
        self.name
    }

    fn author(&self) -> (author: &str)
        ensures
            author == self.author,
    {
        self.author
    }
}

impl AppInfo for OwningAppInfo {
    open spec fn identity(&self) -> AppIdentity {
        self@
    }

    fn name(&self) -> (name: &str)
        ensures
            name@ == self.name@,
    {
        self.name.as_str()
    }

    fn author(&self) -> (author: &str)
        ensures
            author@ == self.author@,
    {
        self.author.as_str()
    }
}

impl Clone for StaticAppInfo {
    fn clone(&self) -> (copy: StaticAppInfo)
        ensures
            copy == *self,
    {
        StaticAppInfo { name: self.name, author: self.author }
    }
}

impl Clone for OwningAppInfo {
    fn clone(&self) -> (copy: OwningAppInfo)
        ensures
            copy == *self,
    {
        OwningAppInfo { name: self.name.clone(), author: self.author.clone() }
    }
}

impl PartialEq for StaticAppInfo {
    fn eq(&self, other: &StaticAppInfo) -> (equal: bool)
        ensures
            equal == (self.name@ == other.name@ && self.author@ == other.author@),
    {
        *self.name == *other.name && *self.author == *other.author
    }
}

impl PartialEqSpecImpl for StaticAppInfo {
    open spec fn obeys_eq_spec() -> bool {
        true
    }

    open spec fn eq_spec(&self, other: &StaticAppInfo) -> bool {
        self@ == other@
    }
}

impl Eq for StaticAppInfo {

}

impl PartialEq for OwningAppInfo {
    fn eq(&self, other: &OwningAppInfo) -> (equal: bool)
        ensures
            equal == (self.name@ == other.name@ && self.author@ == other.author@),
    {
        self.name == other.name && self.author == other.author
    }
}

impl PartialEqSpecImpl for OwningAppInfo {
    open spec fn obeys_eq_spec() -> bool {
        true
    }

    open spec fn eq_spec(&self, other: &OwningAppInfo) -> bool {
        self@ == other@
    }
}

impl Eq for OwningAppInfo {

}

} // verus!
