//! The choice of the capture group to extract.

use vstd::prelude::*;

verus! {

/// The capture group to print: its number, or its name.
#[derive(Debug, Clone)]
pub enum Group {
    Number(usize),
    Name(String),
}

/// The mathematical value of a [`Group`].
pub enum GroupView {
    Number(nat),
    Name(Seq<char>),
}

impl View for Group {
    type V = GroupView;

    open spec fn view(&self) -> GroupView {
        match self {
            Group::Number(i) => GroupView::Number(*i as nat),
            Group::Name(n) => GroupView::Name(n@),
        }
    }
}

/// The selector that a group number and an optional group name stand for:
/// the name wherever one is given, the number otherwise.
pub open spec fn selected(group: nat, group_name: Option<Seq<char>>) -> GroupView {
    match group_name {
        Some(name) => GroupView::Name(name),
        None => GroupView::Number(group),
    }
}

impl Group {
    /// Builds the selector from the two user inputs. A name has precedence
    /// over the number, whatever the number is.
    pub fn select(group: usize, group_name: Option<String>) -> (r: Group)
        ensures
            r@ == selected(
                group as nat,
                match group_name {
                    Some(name) => Some(name@),
                    None => None,
                },
            ),
            group_name is Some ==> r == Group::Name(group_name->Some_0),
            group_name is None ==> r == Group::Number(group),
    {
        match group_name {
            Some(name) => Group::Name(name),
            None => Group::Number(group),
        }
    }
}

/// A name always wins over a number: with a name given, the selector does
/// not depend on the number at all.
pub proof fn lemma_name_has_precedence(first: nat, second: nat, name: Seq<char>)
    ensures
        selected(first, Some(name)) == GroupView::Name(name),
        selected(first, Some(name)) == selected(second, Some(name)),
        selected(first, None) == GroupView::Number(first),
{
}

} // verus!
