//! What is linked where: targets, destinations and the mappings between a
//! source file and its place in the environment.
use crate::collections::StringMap;
use vstd::prelude::*;
use vstd::string::StringExecFns;

verus! {

/// The root a link is created under.
#[derive(Debug, Clone, Copy, PartialEq, Eq, Structural)]
pub enum Destination {
    Home,
    Config,
}

/// A link's name before dot-prefixing, with an optional say on the dot.
#[derive(Debug, PartialEq, Eq)]
pub struct Target {
    pub name: String,
    pub dot: Option<bool>,
}

/// A target together with the root it belongs under.
#[derive(Debug, PartialEq, Eq)]
pub struct LocatedTarget {
    pub target: Target,
    pub destination: Destination,
}

/// One source file paired with the place its link should take.
#[derive(Debug, PartialEq, Eq)]
pub struct DotMap {
    pub source: String,
    pub target: LocatedTarget,
}

/// Targets by the name of the entry they are declared for.
pub type TargetMap = StringMap<LocatedTarget>;

/// Mappings by source path.
pub type DotMaps = StringMap<DotMap>;

pub struct TargetView {
    pub name: Seq<char>,
    pub dot: Option<bool>,
}

pub struct LocatedTargetView {
    pub target: TargetView,
    pub destination: Destination,
}

pub struct DotMapView {
    pub source: Seq<char>,
    pub target: LocatedTargetView,
}

impl View for Target {
    type V = TargetView;

    open spec fn view(&self) -> TargetView {
        TargetView { name: self.name@, dot: self.dot }
    }
}

impl View for LocatedTarget {
    type V = LocatedTargetView;

    open spec fn view(&self) -> LocatedTargetView {
        LocatedTargetView { target: self.target@, destination: self.destination }
    }
}

impl View for DotMap {
    type V = DotMapView;

    open spec fn view(&self) -> DotMapView {
        DotMapView { source: self.source@, target: self.target@ }
    }
}

/// The name a link gets: `name` behind a dot where the override, or else the
/// default, asks for one.
pub open spec fn resolved_name(target: TargetView, dot_default: bool) -> Seq<char> {
    let dotted = match target.dot {
        Some(dot) => dot,
        None => dot_default,
    };
    if dotted {
        seq!['.'] + target.name
    } else {
        target.name
    }
}

impl Destination {
    /// Whether links under this root are dot-prefixed unless a target says otherwise.
    pub open spec fn spec_dot_default(self) -> bool {
        self is Home
    }

    /// Whether links under this root are dot-prefixed unless a target says otherwise.
    #[verifier::when_used_as_spec(spec_dot_default)]
    pub fn dot_default(self) -> (dotted: bool)
        ensures
            dotted == self.spec_dot_default(),
    {
        match self {
            Destination::Home => true,
            Destination::Config => false,
        }
    }

    /// Places `target` under this root.
    pub fn locate(&self, target: Target) -> (located: LocatedTarget)
        ensures
            located.target == target,
            located.destination == *self,
    {
        LocatedTarget::new(target, *self)
    }
}

impl Target {
    pub fn new(name: String, dot: Option<bool>) -> (target: Self)
        ensures
            target.name == name,
            target.dot == dot,
    {
        Target { name, dot }
    }

    /// The file name of the link: see [`resolved_name`].
    pub fn resolve(&self, dot_default: bool) -> (name: String)
        ensures
            name@ == resolved_name(self@, dot_default),
    {
        let dotted = match self.dot {
            Some(dot) => dot,
            None => dot_default,
        };
        if dotted {
            proof {
                reveal_strlit(".");
            }
            String::from_str(".").concat(self.name.as_str())
        } else {
            self.name.clone()
        }
    }
}

impl Clone for Target {
    fn clone(&self) -> (copy: Self)
        ensures
            copy == *self,
    {
        Target { name: self.name.clone(), dot: self.dot }
    }
}

impl LocatedTarget {
    pub fn new(target: Target, destination: Destination) -> (located: Self)
        ensures
            located.target == target,
            located.destination == destination,
    {
        LocatedTarget { target, destination }
    }
}

impl Clone for LocatedTarget {
    fn clone(&self) -> (copy: Self)
        ensures
            copy == *self,
    {
        LocatedTarget { target: self.target.clone(), destination: self.destination }
    }
}

impl DotMap {
    pub fn new(source: String, target: LocatedTarget) -> (map: Self)
        ensures
            map.source == source,
            map.target == target,
    {
        DotMap { source, target }
    }
}

impl Clone for DotMap {
    fn clone(&self) -> (copy: Self)
        ensures
            copy == *self,
    {
        DotMap { source: self.source.clone(), target: self.target.clone() }
    }
}

/// Under `Home` a target without an override is dot-prefixed, under `Config`
/// it keeps its name, and an override of `false` keeps the name wherever it is.
pub proof fn lemma_resolved_name_by_destination(name: Seq<char>)
    ensures
        resolved_name(TargetView { name, dot: None }, Destination::Home.spec_dot_default())
            == seq!['.'] + name,
        resolved_name(TargetView { name, dot: None }, Destination::Config.spec_dot_default())
            == name,
        resolved_name(TargetView { name, dot: Some(false) }, Destination::Home.spec_dot_default())
            == name,
{
}

} // verus!
