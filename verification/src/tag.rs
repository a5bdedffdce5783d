//! The vocabulary that describes an exercise: what it trains, what it needs,
//! how hard it is.

use crate::slugs::{slug_of, slugify};
use crate::unique::extended;
use vstd::prelude::*;

verus! {

#[derive(Clone, Copy, Debug, PartialEq, Eq, Hash, Structural)]
pub enum Difficulty {
    Easy,
    Medium,
    Hard,
    Elite,
}

impl Difficulty {
    pub open spec fn name_text(self) -> Seq<char> {
        match self {
            Difficulty::Easy => "Easy"@,
            Difficulty::Medium => "Medium"@,
            Difficulty::Hard => "Hard"@,
            Difficulty::Elite => "Elite"@,
        }
    }

    pub open spec fn icon_text(self) -> Seq<char> {
        match self {
            Difficulty::Easy => "🟩"@,
            Difficulty::Medium => "🟨"@,
            Difficulty::Hard => "🟧"@,
            Difficulty::Elite => "🟥"@,
        }
    }

    pub fn name(&self) -> (name: &'static str)
        ensures
            name@ == self.name_text(),
    {
        match self {
            Difficulty::Easy => "Easy",
            Difficulty::Medium => "Medium",
            Difficulty::Hard => "Hard",
            Difficulty::Elite => "Elite",
        }
    }

    /// A coloured square, from green for easy to red for elite.
    pub fn icon(&self) -> (icon: String)
        ensures
            icon@ == self.icon_text(),
    {
        match self {
            Difficulty::Easy => "🟩".to_owned(),
            Difficulty::Medium => "🟨".to_owned(),
            Difficulty::Hard => "🟧".to_owned(),
            Difficulty::Elite => "🟥".to_owned(),
        }
    }
}

#[derive(Clone, Copy, Debug, PartialEq, Eq, Hash, Structural)]
pub enum Plank {
    Plank,
    Side,
    Commando,
    Jack,
    ShoulderTap,
    Spiderman,
}

impl Plank {
    pub open spec fn name_text(self) -> Seq<char> {
        match self {
            Plank::Plank => "Plank"@,
            Plank::Side => "Side"@,
            Plank::Commando => "Commando"@,
            Plank::Jack => "Jack"@,
            Plank::ShoulderTap => "ShoulderTap"@,
            Plank::Spiderman => "Spiderman"@,
        }
    }

    pub fn name(&self) -> (name: &'static str)
        ensures
            name@ == self.name_text(),
    {
        match self {
            Plank::Plank => "Plank",
            Plank::Side => "Side",
            Plank::Commando => "Commando",
            Plank::Jack => "Jack",
            Plank::ShoulderTap => "ShoulderTap",
            Plank::Spiderman => "Spiderman",
        }
    }
}

#[derive(Clone, Copy, Debug, PartialEq, Eq, Hash, Structural)]
pub enum Squat {
    Squat,
    Jump,
    Sumo,
    SingleLeg,
    Bulgarian,
}

impl Squat {
    pub open spec fn name_text(self) -> Seq<char> {
        match self {
            Squat::Squat => "Squat"@,
            Squat::Jump => "Jump"@,
            Squat::Sumo => "Sumo"@,
            Squat::SingleLeg => "SingleLeg"@,
            Squat::Bulgarian => "Bulgarian"@,
        }
    }

    pub fn name(&self) -> (name: &'static str)
        ensures
            name@ == self.name_text(),
    {
        match self {
            Squat::Squat => "Squat",
            Squat::Jump => "Jump",
            Squat::Sumo => "Sumo",
            Squat::SingleLeg => "SingleLeg",
            Squat::Bulgarian => "Bulgarian",
        }
    }
}

#[derive(Clone, Copy, Debug, PartialEq, Eq, Hash, Structural)]
pub enum Equipment {
    /// No equipment at all; its display name is "None".
    Nothing,
    Dumbbell,
    Kettlebell,
    Barbell,
    MedicineBall,
    ResistanceBand,
    JumpRope,
    Mat,
    Bench,
    Box,
    Wall,
    Chair,
    PullUpBar,
    Rings,
    TRX,
    Bosu,
    SwissBall,
    FoamRoller,
}

impl Equipment {
    pub open spec fn name_text(self) -> Seq<char> {
        match self {
            Equipment::Nothing => "None"@,
            Equipment::Dumbbell => "Dumbbell"@,
            Equipment::Kettlebell => "Kettlebell"@,
            Equipment::Barbell => "Barbell"@,
            Equipment::MedicineBall => "MedicineBall"@,
            Equipment::ResistanceBand => "ResistanceBand"@,
            Equipment::JumpRope => "JumpRope"@,
            Equipment::Mat => "Mat"@,
            Equipment::Bench => "Bench"@,
            Equipment::Box => "Box"@,
            Equipment::Wall => "Wall"@,
            Equipment::Chair => "Chair"@,
            Equipment::PullUpBar => "PullUpBar"@,
            Equipment::Rings => "Rings"@,
            Equipment::TRX => "TRX"@,
            Equipment::Bosu => "Bosu"@,
            Equipment::SwissBall => "SwissBall"@,
            Equipment::FoamRoller => "FoamRoller"@,
        }
    }

    pub fn name(&self) -> (name: &'static str)
        ensures
            name@ == self.name_text(),
    {
        match self {
            Equipment::Nothing => "None",
            Equipment::Dumbbell => "Dumbbell",
            Equipment::Kettlebell => "Kettlebell",
            Equipment::Barbell => "Barbell",
            Equipment::MedicineBall => "MedicineBall",
            Equipment::ResistanceBand => "ResistanceBand",
            Equipment::JumpRope => "JumpRope",
            Equipment::Mat => "Mat",
            Equipment::Bench => "Bench",
            Equipment::Box => "Box",
            Equipment::Wall => "Wall",
            Equipment::Chair => "Chair",
            Equipment::PullUpBar => "PullUpBar",
            Equipment::Rings => "Rings",
            Equipment::TRX => "TRX",
            Equipment::Bosu => "Bosu",
            Equipment::SwissBall => "SwissBall",
            Equipment::FoamRoller => "FoamRoller",
        }
    }
}

#[derive(Clone, Copy, Debug, PartialEq, Eq, Hash, Structural)]
pub enum Body {
    Full,
    Core,
    Abs,
    Pectorals,
    Legs,
    Hip,
}

impl Body {
    pub open spec fn name_text(self) -> Seq<char> {
        match self {
            Body::Full => "Full"@,
            Body::Core => "Core"@,
            Body::Abs => "Abs"@,
            Body::Pectorals => "Pectorals"@,
            Body::Legs => "Legs"@,
            Body::Hip => "Hip"@,
        }
    }

    pub fn name(&self) -> (name: &'static str)
        ensures
            name@ == self.name_text(),
    {
        match self {
            Body::Full => "Full",
            Body::Core => "Core",
            Body::Abs => "Abs",
            Body::Pectorals => "Pectorals",
            Body::Legs => "Legs",
            Body::Hip => "Hip",
        }
    }
}

#[derive(Clone, Copy, Debug, PartialEq, Eq, Hash, Structural)]
pub enum Mouvement {
    Coordination,
    Balance,
    Rotation,
    Stamina,
    Strengthening,
    Stationary,
    Stretching,
    Dynamic,
    Footwork,
}

impl Mouvement {
    pub open spec fn name_text(self) -> Seq<char> {
        match self {
            Mouvement::Coordination => "Coordination"@,
            Mouvement::Balance => "Balance"@,
            Mouvement::Rotation => "Rotation"@,
            Mouvement::Stamina => "Stamina"@,
            Mouvement::Strengthening => "Strengthening"@,
            Mouvement::Stationary => "Stationary"@,
            Mouvement::Stretching => "Stretching"@,
            Mouvement::Dynamic => "Dynamic"@,
            Mouvement::Footwork => "Footwork"@,
        }
    }

    pub open spec fn icon_text(self) -> Seq<char> {
        match self {
            Mouvement::Coordination => "🤹🏼"@,
            Mouvement::Balance => "🛹"@,
            Mouvement::Rotation => "💫"@,
            Mouvement::Stamina => "💓"@,
            Mouvement::Strengthening => "🏋"@,
            Mouvement::Stationary => "🤸🏼"@,
            Mouvement::Stretching => "🪢"@,
            Mouvement::Dynamic => "🏃"@,
            Mouvement::Footwork => "👣"@,
        }
    }

    pub fn name(&self) -> (name: &'static str)
        ensures
            name@ == self.name_text(),
    {
        match self {
            Mouvement::Coordination => "Coordination",
            Mouvement::Balance => "Balance",
            Mouvement::Rotation => "Rotation",
            Mouvement::Stamina => "Stamina",
            Mouvement::Strengthening => "Strengthening",
            Mouvement::Stationary => "Stationary",
            Mouvement::Stretching => "Stretching",
            Mouvement::Dynamic => "Dynamic",
            Mouvement::Footwork => "Footwork",
        }
    }

    pub fn icon(&self) -> (icon: String)
        ensures
            icon@ == self.icon_text(),
    {
        match self {
            Mouvement::Coordination => "🤹🏼".to_owned(),
            Mouvement::Balance => "🛹".to_owned(),
            Mouvement::Rotation => "💫".to_owned(),
            Mouvement::Stamina => "💓".to_owned(),
            Mouvement::Strengthening => "🏋".to_owned(),
            Mouvement::Stationary => "🤸🏼".to_owned(),
            Mouvement::Stretching => "🪢".to_owned(),
            Mouvement::Dynamic => "🏃".to_owned(),
            Mouvement::Footwork => "👣".to_owned(),
        }
    }
}

/// One descriptive mark on an exercise.
#[derive(Clone, Copy, Debug, PartialEq, Eq, Hash, Structural)]
pub enum Tag {
    Rest,
    HiiT,
    WarmUp,
    Boxing,
    Difficulty(Difficulty),
    Body(Body),
    Mouvement(Mouvement),
    Equipment(Equipment),
    Plank(Plank),
    Squat(Squat),
}

impl Tag {
    /// The tag's display name: its own for a plain tag, the inner one otherwise.
    pub open spec fn name_text(self) -> Seq<char> {
        match self {
            Tag::Rest => "Rest"@,
            Tag::HiiT => "HiiT"@,
            Tag::WarmUp => "WarmUp"@,
            Tag::Boxing => "Boxing"@,
            Tag::Difficulty(difficulty) => difficulty.name_text(),
            Tag::Body(body) => body.name_text(),
            Tag::Mouvement(mouvement) => mouvement.name_text(),
            Tag::Equipment(equipment) => equipment.name_text(),
            Tag::Plank(plank) => plank.name_text(),
            Tag::Squat(squat) => squat.name_text(),
        }
    }

    /// A pictogram where the tag has one, its name otherwise.
    pub open spec fn icon_text(self) -> Seq<char> {
        match self {
            Tag::Rest => "💤"@,
            Tag::HiiT => "🧨"@,
            Tag::WarmUp => "🔥"@,
            Tag::Boxing => "🥊"@,
            Tag::Difficulty(difficulty) => difficulty.icon_text(),
            Tag::Body(body) => body.name_text(),
            Tag::Mouvement(mouvement) => mouvement.icon_text(),
            Tag::Equipment(equipment) => equipment.name_text(),
            Tag::Plank(plank) => plank.name_text(),
            Tag::Squat(squat) => squat.name_text(),
        }
    }

    pub fn name(&self) -> (name: &'static str)
        ensures
            name@ == self.name_text(),
    {
        match self {
            Tag::Rest => "Rest",
            Tag::HiiT => "HiiT",
            Tag::WarmUp => "WarmUp",
            Tag::Boxing => "Boxing",
            Tag::Difficulty(difficulty) => difficulty.name(),
            Tag::Body(body) => body.name(),
            Tag::Mouvement(mouvement) => mouvement.name(),
            Tag::Equipment(equipment) => equipment.name(),
            Tag::Plank(plank) => plank.name(),
            Tag::Squat(squat) => squat.name(),
        }
    }

    pub fn icon(&self) -> (icon: String)
        ensures
            icon@ == self.icon_text(),
    {
        match self {
            Tag::Rest => "💤".to_owned(),
            Tag::Squat(squat) => squat.name().to_owned(),
            Tag::Difficulty(difficulty) => difficulty.icon(),
            Tag::Body(body) => body.name().to_owned(),
            Tag::Equipment(equipment) => equipment.name().to_owned(),
            Tag::Mouvement(mouvement) => mouvement.icon(),
            Tag::HiiT => "🧨".to_owned(),
            Tag::WarmUp => "🔥".to_owned(),
            Tag::Boxing => "🥊".to_owned(),
            Tag::Plank(plank) => plank.name().to_owned(),
        }
    }

    /// The slug of the tag's display name.
    pub fn slug(&self) -> (slug: String)
        ensures
            slug@ == slug_of(self.name_text()),
    {
        slugify(self.name())
    }
}

/// The tags of one exercise, in the order they were given.
#[derive(Debug, Hash)]
pub struct Tags(pub Vec<Tag>);

impl Clone for Tags {
    fn clone(&self) -> (copy: Self)
        ensures
            copy@ == self@,
    {
        let mut tags: Vec<Tag> = Vec::new();
        let mut i: usize = 0;
        while i < self.0.len()
            invariant
                i <= self.0.len(),
                tags@ == self.0@.subrange(0, i as int),
            decreases self.0.len() - i,
        {
            tags.push(self.0[i]);
            assert(tags@ =~= self.0@.subrange(0, i + 1));
            i += 1;
        }
        assert(tags@ =~= self.0@);
        Tags(tags)
    }
}

impl View for Tags {
    type V = Seq<Tag>;

    open spec fn view(&self) -> Seq<Tag> {
        self.0@
    }
}

impl Tags {
    pub fn new(tags: Vec<Tag>) -> (made: Self)
        ensures
            made@ == tags@,
    {
        Tags(tags)
    }

    pub fn len(&self) -> (len: usize)
        ensures
            len == self@.len(),
    {
        self.0.len()
    }

    pub fn is_empty(&self) -> (empty: bool)
        ensures
            empty == (self@.len() == 0),
    {
        self.0.len() == 0
    }

    pub fn contains(&self, tag: &Tag) -> (found: bool)
        ensures
            found == self@.contains(*tag),
    {
        Self::holds(&self.0, tag)
    }

    /// Whether `tag` is among `tags`.
    fn holds(tags: &Vec<Tag>, tag: &Tag) -> (found: bool)
        ensures
            found == tags@.contains(*tag),
    {
        let mut i: usize = 0;
        while i < tags.len()
            invariant
                i <= tags@.len(),
                forall|j: int| 0 <= j < i ==> tags@[j] != *tag,
            decreases tags@.len() - i,
        {
            if tags[i] == *tag {
                return true;
            }
            i += 1;
        }
        false
    }

    /// Appends to `seen` those of these tags that it does not hold yet, each once.
    pub fn add_new_to(&self, seen: &mut Vec<Tag>)
        ensures
            final(seen)@ == extended(old(seen)@, self@),
    {
        let mut i: usize = 0;
        assert(self@.subrange(0, 0) =~= Seq::<Tag>::empty());
        while i < self.0.len()
            invariant
                i <= self@.len(),
                seen@ == extended(old(seen)@, self@.subrange(0, i as int)),
            decreases self@.len() - i,
        {
            let tag = self.0[i];
            proof {
                let longer = self@.subrange(0, i + 1);
                assert(longer.drop_last() =~= self@.subrange(0, i as int));
                assert(longer.last() == tag);
            }
            if !Self::holds(seen, &tag) {
                seen.push(tag);
            }
            i += 1;
        }
        assert(self@.subrange(0, i as int) =~= self@);
    }
}

impl PartialEq for Tags {
    fn eq(&self, other: &Self) -> (equal: bool) {
        if self.0.len() != other.0.len() {
            return false;
        }
        let mut i: usize = 0;
        while i < self.0.len()
            invariant
                i <= self.0.len(),
                self.0.len() == other.0.len(),
                forall|j: int| 0 <= j < i ==> self.0@[j] == other.0@[j],
            decreases self.0.len() - i,
        {
            if self.0[i] != other.0[i] {
                return false;
            }
            i += 1;
        }
        assert(self@ =~= other@);
        true
    }
}

impl Eq for Tags {

}

impl vstd::std_specs::cmp::PartialEqSpecImpl for Tags {
    open spec fn obeys_eq_spec() -> bool {
        true
    }

    open spec fn eq_spec(&self, other: &Self) -> bool {
        self@ == other@
    }
}

impl Default for Tags {
    fn default() -> (tags: Self)
        ensures
            tags@ == Seq::<Tag>::empty(),
    {
        Tags(Vec::new())
    }
}

} // verus!
