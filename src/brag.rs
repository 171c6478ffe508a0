//! The kinds of record a form composes, with their display labels.
use vstd::prelude::*;

verus! {

/// What kind of work a record describes.
#[derive(Debug, Clone, Copy, PartialEq, Eq, Structural)]
pub enum Type {
    Project,
    CollaborationAndMembership,
    DesignAndDocumentation,
    CompanyBuilding,
    Learning,
    OutsideOfWork,
}

/// How much a piece of work mattered.
#[derive(Debug, Clone, Copy, PartialEq, Eq, Structural)]
pub enum Impact {
    Trivial,
    Ordinary,
    Notable,
    Remarkable,
    Extraordinary,
}

pub const TYPE_COUNT: usize = 6;

pub const IMPACT_COUNT: usize = 5;

impl Type {
    /// The position of each kind in the fixed order of kinds.
    pub open spec fn index_of(self) -> int {
        match self {
            Type::Project => 0,
            Type::CollaborationAndMembership => 1,
            Type::DesignAndDocumentation => 2,
            Type::CompanyBuilding => 3,
            Type::Learning => 4,
            Type::OutsideOfWork => 5,
        }
    }

    pub open spec fn label(self) -> Seq<char> {
        match self {
            Type::Project => "Project"@,
            Type::CollaborationAndMembership => "Collaboration and Membership"@,
            Type::DesignAndDocumentation => "Design and Documentation"@,
            Type::CompanyBuilding => "Company Building"@,
            Type::Learning => "Learning"@,
            Type::OutsideOfWork => "Outside of Work"@,
        }
    }

    /// The kind at position `i` of the fixed order, if there is one.
    pub fn from_index(i: usize) -> (r: Option<Type>)
        ensures
            i < TYPE_COUNT <==> r is Some,
            r matches Some(t) ==> t.index_of() == i,
    {
        match i {
            0 => Some(Type::Project),
            1 => Some(Type::CollaborationAndMembership),
            2 => Some(Type::DesignAndDocumentation),
            3 => Some(Type::CompanyBuilding),
            4 => Some(Type::Learning),
            5 => Some(Type::OutsideOfWork),
            _ => None,
        }
    }

    /// The label shown for this kind.
    pub fn text(&self) -> (r: String)
        ensures
            r@ == self.label(),
    {
        match self {
            Type::Project => String::from_str("Project"),
            Type::CollaborationAndMembership => String::from_str("Collaboration and Membership"),
            Type::DesignAndDocumentation => String::from_str("Design and Documentation"),
            Type::CompanyBuilding => String::from_str("Company Building"),
            Type::Learning => String::from_str("Learning"),
            Type::OutsideOfWork => String::from_str("Outside of Work"),
        }
    }
}

impl Impact {
    /// The position of each level in the fixed order of levels.
    pub open spec fn index_of(self) -> int {
        match self {
            Impact::Trivial => 0,
            Impact::Ordinary => 1,
            Impact::Notable => 2,
            Impact::Remarkable => 3,
            Impact::Extraordinary => 4,
        }
    }

    pub open spec fn label(self) -> Seq<char> {
        match self {
            Impact::Trivial => "Trivial"@,
            Impact::Ordinary => "Ordinary"@,
            Impact::Notable => "Notable"@,
            Impact::Remarkable => "Remarkable"@,
            Impact::Extraordinary => "Extraordinary"@,
        }
    }

    /// The level at position `i` of the fixed order, if there is one.
    pub fn from_index(i: usize) -> (r: Option<Impact>)
        ensures
            i < IMPACT_COUNT <==> r is Some,
            r matches Some(t) ==> t.index_of() == i,
    {
        match i {
            0 => Some(Impact::Trivial),
            1 => Some(Impact::Ordinary),
            2 => Some(Impact::Notable),
            3 => Some(Impact::Remarkable),
            4 => Some(Impact::Extraordinary),
            _ => None,
        }
    }

    /// The label shown for this level.
    pub fn text(&self) -> (r: String)
        ensures
            r@ == self.label(),
    {
        match self {
            Impact::Trivial => String::from_str("Trivial"),
            Impact::Ordinary => String::from_str("Ordinary"),
            Impact::Notable => String::from_str("Notable"),
            Impact::Remarkable => String::from_str("Remarkable"),
            Impact::Extraordinary => String::from_str("Extraordinary"),
        }
    }
}

} // verus!
