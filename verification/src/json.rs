//! JSON documents, as trees that can be looked into and changed.
//!
//! Reading a document from text and writing it back is left to serde_json;
//! what lies between is done here.

use vstd::prelude::*;
use crate::error::Error;
use crate::lease::str_eq;

verus! {

/// A JSON value. A number is kept as it is written.
#[derive(Debug)]
pub enum Json {
    Null,
    Bool(bool),
    Number(String),
    String(String),
    Array(Vec<Json>),
    /// The members of an object, each with its name. No name occurs twice in
    /// an object that was read from text.
    Object(Vec<(String, Json)>),
}

/// A JSON value, as contracts speak of it.
pub enum JsonView {
    Null,
    Bool(bool),
    Number(Seq<char>),
    String(Seq<char>),
    Array(Seq<JsonView>),
    Object(Seq<(Seq<char>, JsonView)>),
}

/// The view of a value.
pub open spec fn tree(value: Json) -> JsonView
    decreases value,
{
    match value {
        Json::Null => JsonView::Null,
        Json::Bool(b) => JsonView::Bool(b),
        Json::Number(text) => JsonView::Number(text@),
        Json::String(text) => JsonView::String(text@),
        Json::Array(items) => JsonView::Array(trees(items@, 0)),
        Json::Object(members) => JsonView::Object(member_trees(members@, 0)),
    }
}

/// The views of the items of an array, from place `from` on.
pub open spec fn trees(items: Seq<Json>, from: int) -> Seq<JsonView>
    decreases items, items.len() - from,
{
    if from < 0 || from >= items.len() {
        Seq::empty()
    } else {
        seq![tree(items[from])] + trees(items, from + 1)
    }
}

/// The views of the members of an object, from place `from` on.
pub open spec fn member_trees(members: Seq<(String, Json)>, from: int) -> Seq<
    (Seq<char>, JsonView),
>
    decreases members, members.len() - from,
{
    if from < 0 || from >= members.len() {
        Seq::empty()
    } else {
        seq![(members[from].0@, tree(members[from].1))] + member_trees(members, from + 1)
    }
}

impl View for Json {
    type V = JsonView;

    open spec fn view(&self) -> JsonView {
        tree(*self)
    }
}

/// The views of the items of an array are the views of its items, one for one.
pub proof fn lemma_trees(items: Seq<Json>, from: int)
    requires
        0 <= from <= items.len(),
    ensures
        trees(items, from).len() == items.len() - from,
        forall|i: int|
            0 <= i < items.len() - from ==> #[trigger] trees(items, from)[i] == tree(
                items[from + i],
            ),
    decreases items.len() - from,
{
    if from < items.len() {
        lemma_trees(items, from + 1);
        assert forall|i: int| 0 <= i < items.len() - from implies #[trigger] trees(items, from)[i]
            == tree(items[from + i]) by {
            if i > 0 {
                assert(trees(items, from)[i] == trees(items, from + 1)[i - 1]);
            }
        }
    }
}

/// The views of the members of an object are the views of its members, one
/// for one.
pub proof fn lemma_member_trees(members: Seq<(String, Json)>, from: int)
    requires
        0 <= from <= members.len(),
    ensures
        member_trees(members, from).len() == members.len() - from,
        forall|i: int|
            0 <= i < members.len() - from ==> #[trigger] member_trees(members, from)[i] == (
                members[from + i].0@,
                tree(members[from + i].1),
            ),
    decreases members.len() - from,
{
    if from < members.len() {
        lemma_member_trees(members, from + 1);
        assert forall|i: int| 0 <= i < members.len() - from implies #[trigger] member_trees(
            members,
            from,
        )[i] == (members[from + i].0@, tree(members[from + i].1)) by {
            if i > 0 {
                assert(member_trees(members, from)[i] == member_trees(members, from + 1)[i - 1]);
            }
        }
    }
}

/// The place of the first member, from place `from` on, that goes by a name.
pub open spec fn place_of(members: Seq<(Seq<char>, JsonView)>, name: Seq<char>, from: int)
    -> Option<int>
    decreases members.len() - from,
{
    if from < 0 || from >= members.len() {
        None
    } else if members[from].0 == name {
        Some(from)
    } else {
        place_of(members, name, from + 1)
    }
}

/// The member of a value that goes by a name: the first such member of an
/// object, and nothing of anything else.
pub open spec fn member(value: JsonView, name: Seq<char>) -> Option<JsonView> {
    match value {
        JsonView::Object(members) => match place_of(members, name, 0) {
            Some(i) => Some(members[i].1),
            None => None,
        },
        _ => None,
    }
}

/// The member that lies at the end of a path of names.
pub open spec fn member_at(value: JsonView, path: Seq<Seq<char>>) -> Option<JsonView>
    decreases path.len(),
{
    if path.len() == 0 {
        Some(value)
    } else {
        match member(value, path[0]) {
            Some(inner) => member_at(inner, path.drop_first()),
            None => None,
        }
    }
}

/// The members with one set to a value: the first member of that name takes
/// the value, and where there is none, a new member is added at the end.
pub open spec fn with_member(
    members: Seq<(Seq<char>, JsonView)>,
    name: Seq<char>,
    value: JsonView,
) -> Seq<(Seq<char>, JsonView)> {
    match place_of(members, name, 0) {
        Some(i) => members.update(i, (name, value)),
        None => members.push((name, value)),
    }
}

/// A document with the member `name` of the object at the end of a path set
/// to a value. Objects that the path names and that are missing are made.
/// Where the document, or something on the path, is no object, nothing can
/// be set.
pub open spec fn path_set(
    document: JsonView,
    path: Seq<Seq<char>>,
    name: Seq<char>,
    value: JsonView,
) -> Result<JsonView, Error>
    decreases path.len(),
{
    match document {
        JsonView::Object(members) => if path.len() == 0 {
            Ok(JsonView::Object(with_member(members, name, value)))
        } else {
            let inner = match member(document, path[0]) {
                Some(found) => found,
                None => JsonView::Object(Seq::empty()),
            };
            match path_set(inner, path.drop_first(), name, value) {
                Ok(changed) => Ok(JsonView::Object(with_member(members, path[0], changed))),
                Err(e) => Err(e),
            }
        },
        _ => Err(Error::InvalidData),
    }
}

fn find_member(members: &Vec<(String, Json)>, name: &str) -> (r: Option<usize>)
    ensures
        match r {
            Some(i) => i < members@.len() && place_of(member_trees(members@, 0), name@, 0)
                == Some(i as int),
            None => place_of(member_trees(members@, 0), name@, 0) is None,
        },
{
    proof {
        lemma_member_trees(members@, 0);
    }
    let ghost views = member_trees(members@, 0);
    let mut i: usize = 0;
    while i < members.len()
        invariant
            i <= members@.len(),
            views == member_trees(members@, 0),
            views.len() == members@.len(),
            forall|k: int| 0 <= k < members@.len() ==> (#[trigger] views[k]).0 == members@[k].0@,
            place_of(views, name@, 0) == place_of(views, name@, i as int),
        decreases members@.len() - i,
    {
        if str_eq(members[i].0.as_str(), name) {
            assert(views[i as int].0 == name@);
            return Some(i);
        }
        assert(views[i as int].0 != name@);
        i += 1;
    }
    None
}

fn set_member(members: &mut Vec<(String, Json)>, name: String, value: Json)
    ensures
        member_trees(final(members)@, 0) == with_member(
            member_trees(old(members)@, 0),
            name@,
            tree(value),
        ),
{
    proof {
        lemma_member_trees(members@, 0);
    }
    let found = find_member(members, name.as_str());
    let ghost before = members@;
    match found {
        Some(i) => {
            members[i] = (name, value);
            proof {
                lemma_member_trees(members@, 0);
                assert(member_trees(members@, 0) =~= member_trees(before, 0).update(
                    i as int,
                    (name@, tree(value)),
                ));
            }
        },
        None => {
            members.push((name, value));
            proof {
                lemma_member_trees(members@, 0);
                assert(member_trees(members@, 0) =~= member_trees(before, 0).push(
                    (name@, tree(value)),
                ));
            }
        },
    }
}

impl Json {
    /// An object without members.
    pub fn object() -> (r: Json)
        ensures
            r@ == JsonView::Object(Seq::empty()),
    {
        Json::Object(Vec::new())
    }

    /// The member that goes by a name.
    pub fn get(&self, name: &str) -> (r: Option<&Json>)
        ensures
            match member(self@, name@) {
                Some(found) => r is Some && r->Some_0@ == found,
                None => r is None,
            },
    {
        match self {
            Json::Object(members) => {
                proof {
                    lemma_member_trees(members@, 0);
                }
                match find_member(members, name) {
                    Some(i) => Some(&members[i].1),
                    None => None,
                }
            },
            _ => None,
        }
    }

    /// The member that lies at the end of a path of names.
    pub fn get_path(&self, path: &[&str]) -> (r: Option<&Json>)
        ensures
            match member_at(self@, names(path@)) {
                Some(found) => r is Some && r->Some_0@ == found,
                None => r is None,
            },
    {
        let mut at: &Json = self;
        let mut i: usize = 0;
        assert(names(path@).skip(0) =~= names(path@));
        while i < path.len()
            invariant
                i <= path@.len(),
                member_at(self@, names(path@)) == member_at(at@, names(path@).skip(i as int)),
            decreases path@.len() - i,
        {
            let ghost rest = names(path@).skip(i as int);
            assert(rest[0] == path@[i as int]@);
            assert(rest.drop_first() =~= names(path@).skip(i + 1));
            match at.get(path[i]) {
                Some(inner) => {
                    at = inner;
                },
                None => {
                    return None;
                },
            }
            i += 1;
        }
        Some(at)
    }

    /// What a string value holds.
    pub fn as_str(&self) -> (r: Option<&str>)
        ensures
            match self@ {
                JsonView::String(text) => r is Some && r->Some_0@ == text,
                _ => r is None,
            },
    {
        match self {
            Json::String(text) => Some(text.as_str()),
            _ => None,
        }
    }

    /// The items of an array.
    pub fn as_array(&self) -> (r: Option<&Vec<Json>>)
        ensures
            match self@ {
                JsonView::Array(items) => r is Some && trees(r->Some_0@, 0) == items,
                _ => r is None,
            },
    {
        match self {
            Json::Array(items) => Some(items),
            _ => None,
        }
    }

    /// Sets the member `name` of the object at the end of a path to a value,
    /// and gives the changed document.
    pub fn set_path(self, path: &[&str], name: &str, value: Json) -> (r: Result<Json, Error>)
        ensures
            match path_set(self@, names(path@), name@, value@) {
                Ok(changed) => r is Ok && r->Ok_0@ == changed,
                Err(e) => r is Err && r->Err_0 == e,
            },
    {
        assert(names(path@).skip(0) =~= names(path@));
        set_from(self, path, 0, name, value)
    }
}

/// Each name by its characters.
pub open spec fn names(path: Seq<&str>) -> Seq<Seq<char>> {
    Seq::new(path.len(), |i: int| path[i]@)
}

fn set_from(document: Json, path: &[&str], from: usize, name: &str, value: Json) -> (r: Result<
    Json,
    Error,
>)
    requires
        from <= path@.len(),
    ensures
        match path_set(document@, names(path@).skip(from as int), name@, value@) {
            Ok(changed) => r is Ok && r->Ok_0@ == changed,
            Err(e) => r is Err && r->Err_0 == e,
        },
    decreases path@.len() - from,
{
    let ghost rest = names(path@).skip(from as int);
    let ghost view = document@;
    match document {
        Json::Object(mut members) => {
            if from == path.len() {
                set_member(&mut members, name.to_owned(), value);
                Ok(Json::Object(members))
            } else {
                proof {
                    lemma_member_trees(members@, 0);
                    assert(rest[0] == path@[from as int]@);
                    assert(rest.drop_first() =~= names(path@).skip(from + 1));
                }
                let step = path[from];
                let ghost before = members@;
                let inner = match find_member(&members, step) {
                    Some(i) => {
                        let taken = members.remove(i);
                        members.insert(i, (step.to_owned(), Json::Null));
                        proof {
                            lemma_member_trees(members@, 0);
                            lemma_place_found(member_trees(before, 0), step@, 0);
                            assert(members@ =~= before.update(i as int, members@[i as int]));
                            assert(place_of(member_trees(members@, 0), step@, 0) == Some(
                                i as int,
                            )) by {
                                lemma_place_kept(
                                    member_trees(before, 0),
                                    member_trees(members@, 0),
                                    step@,
                                    i as int,
                                    0,
                                );
                            }
                            assert(member_trees(members@, 0).update(
                                i as int,
                                member_trees(before, 0)[i as int],
                            ) =~= member_trees(before, 0));
                        }
                        taken.1
                    },
                    None => Json::object(),
                };
                let ghost holed = members@;
                match set_from(inner, path, from + 1, name, value) {
                    Ok(changed) => {
                        set_member(&mut members, step.to_owned(), changed);
                        proof {
                            let old_views = member_trees(before, 0);
                            let mid_views = member_trees(holed, 0);
                            if place_of(old_views, step@, 0) is Some {
                                let i = place_of(old_views, step@, 0)->Some_0;
                                assert(mid_views.update(i, (step@, tree(changed)))
                                    =~= old_views.update(i, (step@, tree(changed))));
                            }
                        }
                        Ok(Json::Object(members))
                    },
                    Err(e) => Err(e),
                }
            }
        },
        _ => Err(Error::InvalidData),
    }
}

/// The member at the place found goes by the name looked for.
proof fn lemma_place_found(members: Seq<(Seq<char>, JsonView)>, name: Seq<char>, from: int)
    requires
        0 <= from,
        place_of(members, name, from) is Some,
    ensures
        from <= place_of(members, name, from)->Some_0 < members.len(),
        members[place_of(members, name, from)->Some_0].0 == name,
    decreases members.len() - from,
{
    if from < members.len() && members[from].0 != name {
        lemma_place_found(members, name, from + 1);
    }
}

/// A member keeps its place when its value is changed in place.
proof fn lemma_place_kept(
    before: Seq<(Seq<char>, JsonView)>,
    after: Seq<(Seq<char>, JsonView)>,
    name: Seq<char>,
    at: int,
    from: int,
)
    requires
        before.len() == after.len(),
        0 <= from <= before.len(),
        forall|k: int| 0 <= k < before.len() ==> (#[trigger] before[k]).0 == after[k].0,
        place_of(before, name, from) == Some(at),
    ensures
        place_of(after, name, from) == Some(at),
    decreases before.len() - from,
{
    if from < before.len() && before[from].0 != name {
        lemma_place_kept(before, after, name, at, from + 1);
    }
}

} // verus!
