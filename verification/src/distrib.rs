use vstd::prelude::*;
use crate::versioning::{VersionHash, ItemView, text_item, texts_item};
use crate::packages::{PackageSets, names};
use crate::steps::StepError;
use crate::alpine;
use crate::ubuntu;

verus! {

/// The build step that installs packages the container keeps.
#[derive(Debug)]
pub struct Install(pub Vec<String>);

/// The build step that installs packages needed only while the container
/// is built.
#[derive(Debug)]
pub struct BuildDeps(pub Vec<String>);

/// The build step that adds a repository to the distribution.
#[derive(Debug)]
pub struct Repo(pub String);

impl Install {
    /// Records the packages of the step as kept by the container.
    pub fn record(&self, sets: &mut PackageSets)
        ensures
            names(final(sets).packages@) == names(old(sets).packages@).union(names(self.0@)),
            names(final(sets).build_deps@) == names(old(sets).build_deps@).difference(
                names(self.0@),
            ),
    {
        sets.keep_packages(&self.0);
    }
}

impl BuildDeps {
    /// Records the packages of the step as build dependencies, but for those
    /// the container keeps.
    pub fn record(&self, sets: &mut PackageSets)
        ensures
            final(sets).packages == old(sets).packages,
            names(final(sets).build_deps@) == names(old(sets).build_deps@).union(
                names(self.0@).difference(names(old(sets).packages@)),
            ),
    {
        sets.add_build_deps(&self.0);
    }
}

/// The name of a kind of distribution, as steps written for it name it.
pub trait Named {
    /// The name of the distribution.
    fn static_name() -> &'static str;
}

impl Named for alpine::Distro {
    fn static_name() -> (r: &'static str)
        ensures
            r@ == "alpine"@,
    {
        "alpine"
    }
}

impl Named for ubuntu::Distro {
    fn static_name() -> (r: &'static str)
        ensures
            r@ == "ubuntu"@,
    {
        "ubuntu"
    }
}

/// The distribution a container is built on: none yet, or the one that its
/// first distribution step set up.
pub enum DistroBox {
    Unknown,
    Alpine(alpine::Distro),
    Ubuntu(ubuntu::Distro),
}

/// The readable name of the distribution `d`.
pub open spec fn distro_name(d: DistroBox) -> Seq<char> {
    match d {
        DistroBox::Unknown => "unknown"@,
        DistroBox::Alpine(_) => "Alpine"@,
        DistroBox::Ubuntu(_) => "Ubuntu"@,
    }
}

impl DistroBox {
    /// The readable name of the distribution.
    pub fn name(&self) -> (r: &'static str)
        ensures
            r@ == distro_name(*self),
    {
        match self {
            DistroBox::Unknown => "unknown",
            DistroBox::Alpine(_) => "Alpine",
            DistroBox::Ubuntu(_) => "Ubuntu",
        }
    }

    /// Whether no distribution is set up yet.
    pub fn is_unknown(&self) -> (r: bool)
        ensures
            r == (*self is Unknown),
    {
        match self {
            DistroBox::Unknown => true,
            _ => false,
        }
    }

    /// Sets up the distribution `value`, where none is set up yet.
    pub fn set(&mut self, value: DistroBox) -> (r: Result<(), StepError>)
        ensures
            *old(self) is Unknown ==> r is Ok && *final(self) == value,
            !(*old(self) is Unknown) ==> *final(self) == *old(self),
            !(*old(self) is Unknown) ==> (r matches Err(StepError::DistroOverlap(n, i)) && n@
                == distro_name(value) && i@ == distro_name(*old(self))),
    {
        if self.is_unknown() {
            *self = value;
            Ok(())
        } else {
            Err(StepError::DistroOverlap(value.name(), self.name()))
        }
    }

    /// Checks that the distribution is Alpine, for a step written for it.
    pub fn expect_alpine(&self) -> (r: Result<(), StepError>)
        ensures
            r is Ok <==> *self is Alpine,
            r matches Err(e) ==> e matches StepError::WrongDistro(s, i) && s@ == "alpine"@ && i@
                == distro_name(*self),
    {
        match self {
            DistroBox::Alpine(_) => Ok(()),
            _ => Err(StepError::WrongDistro(alpine::Distro::static_name(), self.name())),
        }
    }

    /// Checks that the distribution is Ubuntu, for a step written for it.
    pub fn expect_ubuntu(&self) -> (r: Result<(), StepError>)
        ensures
            r is Ok <==> *self is Ubuntu,
            r matches Err(e) ==> e matches StepError::WrongDistro(s, i) && s@ == "ubuntu"@ && i@
                == distro_name(*self),
    {
        match self {
            DistroBox::Ubuntu(_) => Ok(()),
            _ => Err(StepError::WrongDistro(ubuntu::Distro::static_name(), self.name())),
        }
    }

    /// Checks that a distribution is set up, for a step that installs
    /// packages.
    pub fn expect_some(&self) -> (r: Result<(), StepError>)
        ensures
            r is Ok <==> !(*self is Unknown),
            r matches Err(e) ==> e is NoDistro,
    {
        match self {
            DistroBox::Unknown => Err(StepError::NoDistro),
            _ => Ok(()),
        }
    }
}

impl Install {
    /// What versions the step: its packages.
    pub open spec fn hash_items(self) -> Seq<ItemView> {
        seq![
            texts_item("packages"@, self.0@),
        ]
    }

    /// Feeds what versions the step into `h`.
    pub fn hash(&self, h: &mut VersionHash)
        ensures
            final(h)@ == old(h)@ + self.hash_items(),
    {
        let ghost h0 = h@;
        h.field_texts("packages", &self.0);
        assert(h@ =~= h0 + self.hash_items());
    }
}

impl BuildDeps {
    /// What versions the step: its packages.
    pub open spec fn hash_items(self) -> Seq<ItemView> {
        seq![
            texts_item("packages"@, self.0@),
        ]
    }

    /// Feeds what versions the step into `h`.
    pub fn hash(&self, h: &mut VersionHash)
        ensures
            final(h)@ == old(h)@ + self.hash_items(),
    {
        let ghost h0 = h@;
        h.field_texts("packages", &self.0);
        assert(h@ =~= h0 + self.hash_items());
    }
}

impl Repo {
    /// What versions the step: the name of the repository.
    pub open spec fn hash_items(self) -> Seq<ItemView> {
        seq![
            text_item("name"@, self.0@),
        ]
    }

    /// Feeds what versions the step into `h`.
    pub fn hash(&self, h: &mut VersionHash)
        ensures
            final(h)@ == old(h)@ + self.hash_items(),
    {
        let ghost h0 = h@;
        h.field_text("name", self.0.as_str());
        assert(h@ =~= h0 + self.hash_items());
    }
}

} // verus!
