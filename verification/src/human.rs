//! Plain sum and product types, and predicates that pick one combination of
//! their fields.

use vstd::prelude::*;

verus! {

/// A truth value with a third state for "not known".
#[derive(Debug, Clone, Copy, PartialEq, Eq, Structural)]
pub enum Boolean {
    True,
    False,
    Null,
}

/// A colour channel.
#[derive(Debug, Clone, Copy, PartialEq, Eq, Structural)]
pub enum Color {
    R,
    G,
    B,
}

/// A person by identifier and name.
#[derive(Debug)]
pub struct Human {
    pub id: String,
    pub name: String,
}

/// A person by identifier and name, without field names.
pub type Human2 = (String, String);

/// A person reduced to two truth values.
#[derive(Debug, Clone, Copy, PartialEq, Eq, Structural)]
pub struct Human3 {
    pub id: Boolean,
    pub name: Boolean,
}

/// A person by two traits and a face colour.
#[derive(Debug, Clone, Copy, PartialEq, Eq, Structural)]
pub struct Human12 {
    pub is_crazy: Boolean,
    pub is_tall: Boolean,
    pub face_color: Color,
}

/// The fields of [`Human12`] in the same order, without field names.
pub type Human22 = (Boolean, Boolean, Color);

impl Human3 {
    /// Whether both fields are `True` or `False`, neither `Null`.
    pub open spec fn is_decided(self) -> bool {
        !(self.id is Null) && !(self.name is Null)
    }
}

impl Human12 {
    /// Whether the person is crazy, not tall, and red in the face.
    pub open spec fn is_red_crazy_short(self) -> bool {
        self.is_crazy is True && self.is_tall is False && self.face_color is R
    }

    /// The same person without field names.
    pub open spec fn as_tuple(self) -> Human22 {
        (self.is_crazy, self.is_tall, self.face_color)
    }
}

/// Whether an unnamed triple describes a crazy, short, red person.
pub open spec fn tuple_is_red_crazy_short(human: Human22) -> bool {
    human.0 is True && human.1 is False && human.2 is R
}

/// Every [`Human3`] with decided fields, `True` before `False`, the
/// identifier varying slowest.
pub open spec fn decided_humans() -> Seq<Human3> {
    seq![
        Human3 { id: Boolean::True, name: Boolean::True },
        Human3 { id: Boolean::True, name: Boolean::False },
        Human3 { id: Boolean::False, name: Boolean::True },
        Human3 { id: Boolean::False, name: Boolean::False },
    ]
}

/// Lists the four people that two decided truth values can describe.
pub fn possible_humans() -> (humans: Vec<Human3>)
    ensures
        humans@ == decided_humans(),
{
    let humans = vec![
        Human3 { id: Boolean::True, name: Boolean::True },
        Human3 { id: Boolean::True, name: Boolean::False },
        Human3 { id: Boolean::False, name: Boolean::True },
        Human3 { id: Boolean::False, name: Boolean::False },
    ];
    humans
}

/// The list of decided people holds each of them, nobody else, and nobody
/// twice.
pub proof fn lemma_decided_humans_complete(human: Human3)
    ensures
        decided_humans().contains(human) <==> human.is_decided(),
        decided_humans().no_duplicates(),
{
    let all = decided_humans();
    if human.is_decided() {
        let index: int = if human.id is True {
            if human.name is True {
                0
            } else {
                1
            }
        } else {
            if human.name is True {
                2
            } else {
                3
            }
        };
        assert(all[index] == human);
    }
}

/// Whether `human` is crazy, short and red, one field matched after the
/// other.
pub fn is_red_crazy_short_human_normal(human: Human12) -> (result: bool)
    ensures
        result == human.is_red_crazy_short(),
{
    match human {
        Human12 { is_crazy, is_tall, face_color } => match face_color {
            Color::R => match is_crazy {
                Boolean::True => match is_tall {
                    Boolean::False => true,
                    _ => false,
                },
                _ => false,
            },
            _ => false,
        },
    }
}

/// Whether `human` is crazy, short and red, all fields matched in one
/// pattern.
pub fn is_red_crazy_short_human_better(human: Human12) -> (result: bool)
    ensures
        result == human.is_red_crazy_short(),
{
    match human {
        Human12 { is_crazy: Boolean::True, is_tall: Boolean::False, face_color: Color::R } => true,
        _ => false,
    }
}

/// Whether an unnamed triple describes a crazy, short, red person.
pub fn is_red_crazy_short_human22_better(human: Human22) -> (result: bool)
    ensures
        result == tuple_is_red_crazy_short(human),
{
    match human {
        (Boolean::True, Boolean::False, Color::R) => true,
        _ => false,
    }
}

/// A person with named fields and the same person as a triple are judged
/// alike.
pub proof fn lemma_named_and_unnamed_agree(human: Human12)
    ensures
        human.is_red_crazy_short() == tuple_is_red_crazy_short(human.as_tuple()),
{
}

/// Exactly one person is crazy, short and red.
pub proof fn lemma_one_red_crazy_short(human: Human12)
    ensures
        human.is_red_crazy_short() <==> human == (Human12 {
            is_crazy: Boolean::True,
            is_tall: Boolean::False,
            face_color: Color::R,
        }),
{
}

} // verus!
