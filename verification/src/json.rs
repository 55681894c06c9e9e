//! The dynamic JSON tree that the envelope carries, its mathematical model,
//! and recursive null-elision over it.

use vstd::prelude::*;

verus! {

broadcast use vstd::std_specs::vec::group_vec_axioms;

/// The numeric leaf type of an outside crate, carried through the tree
/// without interpretation.
#[verifier::external_type_specification]
#[verifier::external_body]
pub struct ExNumber(serde_json::Number);

/// A dynamic JSON value: null, boolean, number, string, array or object.
/// Objects keep their members in order; producers that go through the
/// outside JSON crate always see members sorted by key.
#[derive(Debug)]
pub enum JsonTree {
    Null,
    Bool(bool),
    Num(serde_json::Number),
    Str(String),
    Arr(Vec<JsonTree>),
    Obj(Vec<(String, JsonTree)>),
}

/// The mathematical model of a JSON tree.
pub ghost enum SpecJson {
    Null,
    Bool(bool),
    Num(serde_json::Number),
    Str(Seq<char>),
    Arr(Seq<SpecJson>),
    Obj(Seq<(Seq<char>, SpecJson)>),
}

impl View for JsonTree {
    type V = SpecJson;

    open spec fn view(&self) -> SpecJson
        decreases self, 2int,
    {
        match self {
            JsonTree::Null => SpecJson::Null,
            JsonTree::Bool(b) => SpecJson::Bool(*b),
            JsonTree::Num(n) => SpecJson::Num(*n),
            JsonTree::Str(s) => SpecJson::Str(s@),
            JsonTree::Arr(items) => SpecJson::Arr(view_items(items@)),
            JsonTree::Obj(fields) => SpecJson::Obj(view_fields(fields@)),
        }
    }
}

pub open spec fn view_items(items: Seq<JsonTree>) -> Seq<SpecJson>
    decreases items, 1int,
{
    if items.len() == 0 {
        Seq::empty()
    } else {
        seq![items[0]@] + view_items(items.subrange(1, items.len() as int))
    }
}

pub open spec fn view_fields(fields: Seq<(String, JsonTree)>) -> Seq<(Seq<char>, SpecJson)>
    decreases fields, 1int,
{
    if fields.len() == 0 {
        Seq::empty()
    } else {
        seq![(fields[0].0@, fields[0].1@)]
            + view_fields(fields.subrange(1, fields.len() as int))
    }
}

pub proof fn lemma_view_items(items: Seq<JsonTree>)
    ensures
        view_items(items).len() == items.len(),
        forall|i: int| 0 <= i < items.len() ==> view_items(items)[i] == items[i]@,
    decreases items.len(),
{
    if items.len() > 0 {
        let rest = items.subrange(1, items.len() as int);
        lemma_view_items(rest);
        assert(view_items(items) == seq![items[0]@] + view_items(rest));
        assert forall|i: int| 0 <= i < items.len() implies view_items(items)[i] == items[i]@ by {
            if i > 0 {
                assert(view_items(items)[i] == view_items(rest)[i - 1]);
                assert(rest[i - 1] == items[i]);
            }
        }
    }
}

pub proof fn lemma_view_fields(fields: Seq<(String, JsonTree)>)
    ensures
        view_fields(fields).len() == fields.len(),
        forall|i: int| 0 <= i < fields.len()
            ==> view_fields(fields)[i] == (fields[i].0@, fields[i].1@),
    decreases fields.len(),
{
    if fields.len() > 0 {
        let rest = fields.subrange(1, fields.len() as int);
        lemma_view_fields(rest);
        assert(view_fields(fields) == seq![(fields[0].0@, fields[0].1@)] + view_fields(rest));
        assert forall|i: int| 0 <= i < fields.len()
            implies view_fields(fields)[i] == (fields[i].0@, fields[i].1@) by {
            if i > 0 {
                assert(view_fields(fields)[i] == view_fields(rest)[i - 1]);
                assert(rest[i - 1] == fields[i]);
            }
        }
    }
}

pub open spec fn elide_nulls(t: SpecJson) -> SpecJson
    decreases t, 2int,
{
    match t {
        SpecJson::Arr(items) => SpecJson::Arr(elide_items(items)),
        SpecJson::Obj(fields) => SpecJson::Obj(elide_fields(fields)),
        other => other,
    }
}

pub open spec fn elide_items(items: Seq<SpecJson>) -> Seq<SpecJson>
    decreases items, 1int,
{
    if items.len() == 0 {
        Seq::empty()
    } else {
        let head = elide_nulls(items[0]);
        let rest = elide_items(items.subrange(1, items.len() as int));
        if head is Null {
            rest
        } else {
            seq![head] + rest
        }
    }
}

pub open spec fn elide_fields(fields: Seq<(Seq<char>, SpecJson)>) -> Seq<(Seq<char>, SpecJson)>
    decreases fields, 1int,
{
    if fields.len() == 0 {
        Seq::empty()
    } else {
        let head = elide_nulls(fields[0].1);
        let rest = elide_fields(fields.subrange(1, fields.len() as int));
        if head is Null {
            rest
        } else {
            seq![(fields[0].0, head)] + rest
        }
    }
}

/// Null-elision leaves an empty object and an empty array unchanged.
pub proof fn lemma_elide_nulls_preserves_empties()
    ensures
        elide_nulls(SpecJson::Obj(Seq::empty())) == SpecJson::Obj(
            Seq::<(Seq<char>, SpecJson)>::empty(),
        ),
        elide_nulls(SpecJson::Arr(Seq::empty())) == SpecJson::Arr(Seq::<SpecJson>::empty()),
{
}

/// Null-elision is idempotent: applying it twice gives the same tree as
/// applying it once.
pub proof fn lemma_elide_nulls_idempotent(t: SpecJson)
    ensures
        elide_nulls(elide_nulls(t)) == elide_nulls(t),
    decreases t, 2int,
{
    match t {
        SpecJson::Arr(items) => lemma_elide_items_idempotent(items),
        SpecJson::Obj(fields) => lemma_elide_fields_idempotent(fields),
        _ => (),
    }
}

proof fn lemma_elide_items_idempotent(items: Seq<SpecJson>)
    ensures
        elide_items(elide_items(items)) == elide_items(items),
    decreases items, 1int,
{
    if items.len() > 0 {
        let rest0 = items.subrange(1, items.len() as int);
        let head = elide_nulls(items[0]);
        let rest = elide_items(rest0);
        lemma_elide_nulls_idempotent(items[0]);
        lemma_elide_items_idempotent(rest0);
        if !(head is Null) {
            let s = seq![head] + rest;
            assert(elide_items(items) == s);
            assert(s[0] == head);
            assert(s.subrange(1, s.len() as int) =~= rest);
            assert(elide_items(s) == seq![elide_nulls(head)] + elide_items(rest));
        }
    }
}

proof fn lemma_elide_fields_idempotent(fields: Seq<(Seq<char>, SpecJson)>)
    ensures
        elide_fields(elide_fields(fields)) == elide_fields(fields),
    decreases fields, 1int,
{
    if fields.len() > 0 {
        let rest0 = fields.subrange(1, fields.len() as int);
        let head = elide_nulls(fields[0].1);
        let rest = elide_fields(rest0);
        lemma_elide_nulls_idempotent(fields[0].1);
        lemma_elide_fields_idempotent(rest0);
        if !(head is Null) {
            let s = seq![(fields[0].0, head)] + rest;
            assert(elide_fields(fields) == s);
            assert(s[0] == (fields[0].0, head));
            assert(s.subrange(1, s.len() as int) =~= rest);
            assert(elide_fields(s) == seq![(fields[0].0, elide_nulls(head))] + elide_fields(rest));
        }
    }
}

pub proof fn lemma_elide_items_push(s: Seq<SpecJson>, x: SpecJson)
    ensures
        elide_items(s.push(x)) == elide_items(s) + (if elide_nulls(x) is Null {
            Seq::<SpecJson>::empty()
        } else {
            seq![elide_nulls(x)]
        }),
    decreases s.len(),
{
    let tail = if elide_nulls(x) is Null {
        Seq::<SpecJson>::empty()
    } else {
        seq![elide_nulls(x)]
    };
    if s.len() == 0 {
        assert(s.push(x).subrange(1, 1) =~= Seq::<SpecJson>::empty());
        assert(s.push(x)[0] == x);
        assert(elide_items(s.push(x)) == if elide_nulls(x) is Null {
            elide_items(Seq::<SpecJson>::empty())
        } else {
            seq![elide_nulls(x)] + elide_items(Seq::<SpecJson>::empty())
        });
        assert(elide_items(s) + tail =~= tail);
        assert(elide_items(s.push(x)) =~= tail);
    } else {
        let rest0 = s.subrange(1, s.len() as int);
        lemma_elide_items_push(rest0, x);
        assert(s.push(x)[0] == s[0]);
        assert(s.push(x).subrange(1, s.push(x).len() as int) =~= rest0.push(x));
        if elide_nulls(s[0]) is Null {
            assert(elide_items(s.push(x)) == elide_items(rest0.push(x)));
        } else {
            assert(elide_items(s.push(x)) == seq![elide_nulls(s[0])] + elide_items(rest0.push(x)));
            assert(seq![elide_nulls(s[0])] + (elide_items(rest0) + tail) =~= (seq![elide_nulls(
                s[0],
            )] + elide_items(rest0)) + tail);
        }
    }
}

pub proof fn lemma_elide_fields_push(s: Seq<(Seq<char>, SpecJson)>, k: Seq<char>, x: SpecJson)
    ensures
        elide_fields(s.push((k, x))) == elide_fields(s) + (if elide_nulls(x) is Null {
            Seq::<(Seq<char>, SpecJson)>::empty()
        } else {
            seq![(k, elide_nulls(x))]
        }),
    decreases s.len(),
{
    let tail = if elide_nulls(x) is Null {
        Seq::<(Seq<char>, SpecJson)>::empty()
    } else {
        seq![(k, elide_nulls(x))]
    };
    if s.len() == 0 {
        assert(s.push((k, x)).subrange(1, 1) =~= Seq::<(Seq<char>, SpecJson)>::empty());
        assert(s.push((k, x))[0] == (k, x));
        assert(elide_fields(s.push((k, x))) == if elide_nulls(x) is Null {
            elide_fields(Seq::<(Seq<char>, SpecJson)>::empty())
        } else {
            seq![(k, elide_nulls(x))] + elide_fields(Seq::<(Seq<char>, SpecJson)>::empty())
        });
        assert(elide_fields(s) + tail =~= tail);
        assert(elide_fields(s.push((k, x))) =~= tail);
    } else {
        let rest0 = s.subrange(1, s.len() as int);
        lemma_elide_fields_push(rest0, k, x);
        assert(s.push((k, x))[0] == s[0]);
        assert(s.push((k, x)).subrange(1, s.push((k, x)).len() as int) =~= rest0.push((k, x)));
        if elide_nulls(s[0].1) is Null {
            assert(elide_fields(s.push((k, x))) == elide_fields(rest0.push((k, x))));
        } else {
            assert(elide_fields(s.push((k, x))) == seq![(s[0].0, elide_nulls(s[0].1))]
                + elide_fields(rest0.push((k, x))));
            assert(seq![(s[0].0, elide_nulls(s[0].1))] + (elide_fields(rest0) + tail) =~= (seq![
                (s[0].0, elide_nulls(s[0].1)),
            ] + elide_fields(rest0)) + tail);
        }
    }
}

/// Container-nesting depth of a tree: scalars sit at depth zero, and each
/// array or object adds one level.
pub open spec fn depth(t: SpecJson) -> nat
    decreases t, 2int,
{
    match t {
        SpecJson::Arr(items) => 1 + depth_items(items),
        SpecJson::Obj(fields) => 1 + depth_fields(fields),
        _ => 0,
    }
}

/// The deepest nesting among the elements, zero for none.
pub open spec fn depth_items(items: Seq<SpecJson>) -> nat
    decreases items, 1int,
{
    if items.len() == 0 {
        0
    } else {
        let head = depth(items[0]);
        let rest = depth_items(items.subrange(1, items.len() as int));
        if head >= rest {
            head
        } else {
            rest
        }
    }
}

/// The deepest nesting among the member values, zero for none.
pub open spec fn depth_fields(fields: Seq<(Seq<char>, SpecJson)>) -> nat
    decreases fields, 1int,
{
    if fields.len() == 0 {
        0
    } else {
        let head = depth(fields[0].1);
        let rest = depth_fields(fields.subrange(1, fields.len() as int));
        if head >= rest {
            head
        } else {
            rest
        }
    }
}

/// Null-elision never deepens a tree: it only removes members and elements.
pub proof fn lemma_elide_nulls_depth(t: SpecJson)
    ensures
        depth(elide_nulls(t)) <= depth(t),
    decreases t, 2int,
{
    match t {
        SpecJson::Arr(items) => lemma_elide_items_depth(items),
        SpecJson::Obj(fields) => lemma_elide_fields_depth(fields),
        _ => (),
    }
}

proof fn lemma_elide_items_depth(items: Seq<SpecJson>)
    ensures
        depth_items(elide_items(items)) <= depth_items(items),
    decreases items, 1int,
{
    if items.len() > 0 {
        let rest0 = items.subrange(1, items.len() as int);
        let head = elide_nulls(items[0]);
        lemma_elide_nulls_depth(items[0]);
        lemma_elide_items_depth(rest0);
        if !(head is Null) {
            let s = seq![head] + elide_items(rest0);
            assert(elide_items(items) == s);
            assert(s[0] == head);
            assert(s.subrange(1, s.len() as int) =~= elide_items(rest0));
            assert(depth_items(s) == if depth(head) >= depth_items(elide_items(rest0)) {
                depth(head)
            } else {
                depth_items(elide_items(rest0))
            });
        }
    }
}

proof fn lemma_elide_fields_depth(fields: Seq<(Seq<char>, SpecJson)>)
    ensures
        depth_fields(elide_fields(fields)) <= depth_fields(fields),
    decreases fields, 1int,
{
    if fields.len() > 0 {
        let rest0 = fields.subrange(1, fields.len() as int);
        let head = elide_nulls(fields[0].1);
        lemma_elide_nulls_depth(fields[0].1);
        lemma_elide_fields_depth(rest0);
        if !(head is Null) {
            let s = seq![(fields[0].0, head)] + elide_fields(rest0);
            assert(elide_fields(fields) == s);
            assert(s[0] == (fields[0].0, head));
            assert(s.subrange(1, s.len() as int) =~= elide_fields(rest0));
            assert(depth_fields(s) == if depth(head) >= depth_fields(elide_fields(rest0)) {
                depth(head)
            } else {
                depth_fields(elide_fields(rest0))
            });
        }
    }
}

/// Strict lexicographic order on character sequences, matching the byte
/// order in which the outside JSON crate's map keeps its keys.
pub open spec fn str_lt(a: Seq<char>, b: Seq<char>) -> bool
    decreases a.len(),
{
    if b.len() == 0 {
        false
    } else if a.len() == 0 {
        true
    } else if a[0] == b[0] {
        str_lt(a.subrange(1, a.len() as int), b.subrange(1, b.len() as int))
    } else {
        (a[0] as u32) < (b[0] as u32)
    }
}

pub open spec fn fields_sorted(fields: Seq<(Seq<char>, SpecJson)>) -> bool {
    forall|i: int, j: int|
        0 <= i < j < fields.len() ==> str_lt(#[trigger] fields[i].0, #[trigger] fields[j].0)
}

/// A tree is canonical when every object keeps its members strictly sorted
/// by key, recursively: the shape in which the outside JSON crate parses and
/// re-emits any object.
pub open spec fn canonical(t: SpecJson) -> bool
    decreases t, 2int,
{
    match t {
        SpecJson::Arr(items) => canonical_items(items),
        SpecJson::Obj(fields) => fields_sorted(fields) && canonical_fields(fields),
        _ => true,
    }
}

pub open spec fn canonical_items(items: Seq<SpecJson>) -> bool
    decreases items, 1int,
{
    if items.len() == 0 {
        true
    } else {
        canonical(items[0]) && canonical_items(items.subrange(1, items.len() as int))
    }
}

pub open spec fn canonical_fields(fields: Seq<(Seq<char>, SpecJson)>) -> bool
    decreases fields, 1int,
{
    if fields.len() == 0 {
        true
    } else {
        canonical(fields[0].1) && canonical_fields(fields.subrange(1, fields.len() as int))
    }
}

pub proof fn lemma_canonical_items_index(items: Seq<SpecJson>)
    ensures
        canonical_items(items) <==> (forall|i: int|
            0 <= i < items.len() ==> canonical(#[trigger] items[i])),
    decreases items.len(),
{
    if items.len() > 0 {
        let rest = items.subrange(1, items.len() as int);
        lemma_canonical_items_index(rest);
        assert forall|i: int| 1 <= i < items.len() implies items[i] == rest[i - 1] by {}
        if forall|i: int| 0 <= i < items.len() ==> canonical(#[trigger] items[i]) {
            assert forall|i: int| 0 <= i < rest.len() implies canonical(#[trigger] rest[i]) by {
                assert(rest[i] == items[i + 1]);
            }
        }
    }
}

pub proof fn lemma_canonical_fields_index(fields: Seq<(Seq<char>, SpecJson)>)
    ensures
        canonical_fields(fields) <==> (forall|i: int|
            0 <= i < fields.len() ==> canonical(#[trigger] fields[i].1)),
    decreases fields.len(),
{
    if fields.len() > 0 {
        let rest = fields.subrange(1, fields.len() as int);
        lemma_canonical_fields_index(rest);
        assert forall|i: int| 1 <= i < fields.len() implies fields[i] == rest[i - 1] by {}
        if forall|i: int| 0 <= i < fields.len() ==> canonical(#[trigger] fields[i].1) {
            assert forall|i: int| 0 <= i < rest.len() implies canonical(#[trigger] rest[i].1) by {
                assert(rest[i] == fields[i + 1]);
            }
        }
    }
}

/// Null-elision keeps trees canonical: it only removes members and elements,
/// never reorders the ones it keeps.
pub proof fn lemma_elide_preserves_canonical(t: SpecJson)
    requires
        canonical(t),
    ensures
        canonical(elide_nulls(t)),
    decreases t, 2int,
{
    match t {
        SpecJson::Arr(items) => lemma_elide_items_canonical(items),
        SpecJson::Obj(fields) => lemma_elide_fields_canonical(fields),
        _ => (),
    }
}

proof fn lemma_elide_items_canonical(items: Seq<SpecJson>)
    requires
        canonical_items(items),
    ensures
        canonical_items(elide_items(items)),
        forall|i: int|
            0 <= i < elide_items(items).len() ==> canonical(#[trigger] elide_items(items)[i]),
    decreases items, 1int,
{
    lemma_canonical_items_index(elide_items(items));
    if items.len() > 0 {
        let rest0 = items.subrange(1, items.len() as int);
        let head = elide_nulls(items[0]);
        lemma_elide_preserves_canonical(items[0]);
        lemma_elide_items_canonical(rest0);
        lemma_canonical_items_index(elide_items(rest0));
        if !(head is Null) {
            assert(elide_items(items) == seq![head] + elide_items(rest0));
            assert forall|i: int| 0 <= i < elide_items(items).len() implies canonical(
                #[trigger] elide_items(items)[i],
            ) by {
                if i > 0 {
                    assert(elide_items(items)[i] == elide_items(rest0)[i - 1]);
                }
            }
        }
    }
}

proof fn lemma_elide_fields_canonical(fields: Seq<(Seq<char>, SpecJson)>)
    requires
        fields_sorted(fields),
        canonical_fields(fields),
    ensures
        fields_sorted(elide_fields(fields)),
        canonical_fields(elide_fields(fields)),
        canonical(SpecJson::Obj(elide_fields(fields))),
        forall|j: int|
            0 <= j < elide_fields(fields).len() ==> exists|i: int|
                0 <= i < fields.len() && (#[trigger] elide_fields(fields)[j]).0 == fields[i].0,
    decreases fields, 1int,
{
    lemma_canonical_fields_index(elide_fields(fields));
    if fields.len() > 0 {
        let rest0 = fields.subrange(1, fields.len() as int);
        let head = elide_nulls(fields[0].1);
        lemma_elide_preserves_canonical(fields[0].1);
        assert forall|i: int, j: int| 0 <= i < j < rest0.len() implies str_lt(
            #[trigger] rest0[i].0,
            #[trigger] rest0[j].0,
        ) by {
            assert(rest0[i] == fields[i + 1]);
            assert(rest0[j] == fields[j + 1]);
        }
        lemma_elide_fields_canonical(rest0);
        lemma_canonical_fields_index(elide_fields(rest0));
        let er = elide_fields(rest0);
        if head is Null {
            assert(elide_fields(fields) == er);
            assert forall|j: int| 0 <= j < er.len() implies exists|i: int|
                0 <= i < fields.len() && (#[trigger] er[j]).0 == fields[i].0 by {
                let i0 = choose|i0: int| 0 <= i0 < rest0.len() && er[j].0 == rest0[i0].0;
                assert(rest0[i0] == fields[i0 + 1]);
                assert(er[j].0 == fields[i0 + 1].0);
            }
        } else {
            let ef = seq![(fields[0].0, head)] + er;
            assert(elide_fields(fields) == ef);
            assert forall|j: int| 0 <= j < ef.len() implies exists|i: int|
                0 <= i < fields.len() && (#[trigger] ef[j]).0 == fields[i].0 by {
                if j == 0 {
                    assert(ef[0].0 == fields[0].0);
                } else {
                    assert(ef[j] == er[j - 1]);
                    let i0 = choose|i0: int| 0 <= i0 < rest0.len() && er[j - 1].0 == rest0[i0].0;
                    assert(rest0[i0] == fields[i0 + 1]);
                    assert(ef[j].0 == fields[i0 + 1].0);
                }
            }
            assert forall|i: int, j: int| 0 <= i < j < ef.len() implies str_lt(
                #[trigger] ef[i].0,
                #[trigger] ef[j].0,
            ) by {
                if i == 0 {
                    assert(ef[j] == er[j - 1]);
                    let i0 = choose|i0: int| 0 <= i0 < rest0.len() && er[j - 1].0 == rest0[i0].0;
                    assert(rest0[i0] == fields[i0 + 1]);
                    assert(str_lt(fields[0].0, fields[i0 + 1].0));
                } else {
                    assert(ef[i] == er[i - 1]);
                    assert(ef[j] == er[j - 1]);
                }
            }
            assert forall|j: int| 0 <= j < ef.len() implies canonical(
                #[trigger] ef[j].1,
            ) by {
                if j > 0 {
                    assert(ef[j] == er[j - 1]);
                }
            }
            lemma_canonical_fields_index(ef);
        }
    }
}

/// Index of the first member with the given key, if any.
pub open spec fn spec_find_key(fields: Seq<(Seq<char>, SpecJson)>, key: Seq<char>) -> Option<int>
    decreases fields.len(),
{
    if fields.len() == 0 {
        None
    } else if fields[0].0 == key {
        Some(0)
    } else {
        match spec_find_key(fields.subrange(1, fields.len() as int), key) {
            Some(i) => Some(i + 1),
            None => None,
        }
    }
}

pub proof fn lemma_spec_find_key(fields: Seq<(Seq<char>, SpecJson)>, key: Seq<char>)
    ensures
        match spec_find_key(fields, key) {
            Some(i) => 0 <= i < fields.len() && fields[i].0 == key && (forall|k: int|
                0 <= k < i ==> (#[trigger] fields[k]).0 != key),
            None => forall|k: int| 0 <= k < fields.len() ==> (#[trigger] fields[k]).0 != key,
        },
    decreases fields.len(),
{
    if fields.len() > 0 && fields[0].0 != key {
        let rest = fields.subrange(1, fields.len() as int);
        lemma_spec_find_key(rest, key);
        assert forall|k: int| 1 <= k < fields.len() implies fields[k] == rest[k - 1] by {}
    }
}

/// The adjacent type-tag wrapper: an object with exactly a `@type` member
/// naming the payload type and a `value` member holding the payload.
pub open spec fn wrap_adjacent(tag: Seq<char>, v: SpecJson) -> SpecJson {
    SpecJson::Obj(seq![("@type"@, SpecJson::Str(tag)), ("value"@, v)])
}

/// Strip an adjacent type-tag wrapper if the tree is an object whose first
/// `@type` member is a string and which has a `value` member; otherwise the
/// tree passes through unchanged.
pub open spec fn unwrap_adjacent(t: SpecJson) -> SpecJson {
    match t {
        SpecJson::Obj(fields) => match (
            spec_find_key(fields, "@type"@),
            spec_find_key(fields, "value"@),
        ) {
            (Some(i), Some(j)) => if fields[i].1 is Str {
                fields[j].1
            } else {
                t
            },
            _ => t,
        },
        _ => t,
    }
}

/// Unwrapping inverts wrapping: for any tag string, stripping the adjacent
/// wrapper from `wrap_adjacent(tag, v)` gives back `v`.
pub proof fn lemma_unwrap_wrap_adjacent(tag: Seq<char>, v: SpecJson)
    ensures
        unwrap_adjacent(wrap_adjacent(tag, v)) == v,
{
    reveal_strlit("@type");
    reveal_strlit("value");
    let fields = seq![("@type"@, SpecJson::Str(tag)), ("value"@, v)];
    assert("@type"@[0] == '@' && "value"@[0] == 'v');
    assert(fields[0].0 == "@type"@);
    assert(spec_find_key(fields, "@type"@) == Some(0int));
    let rest = fields.subrange(1, fields.len() as int);
    assert(rest =~= seq![("value"@, v)]);
    assert(rest[0].0 == "value"@);
    assert("@type"@ != "value"@);
    assert(spec_find_key(rest, "value"@) == Some(0int));
    assert(spec_find_key(fields, "value"@) == Some(1int));
}

/// An object that carries a `@type` member but no `value` member is decoded
/// whole: the tag is ignored and nothing is stripped.
pub proof fn lemma_unwrap_adjacent_fallthrough(t: SpecJson)
    requires
        t matches SpecJson::Obj(fields) && spec_find_key(fields, "value"@) is None,
    ensures
        unwrap_adjacent(t) == t,
{
}

/// Relies on Clone for serde_json::Number: cloning yields the same number.
#[verifier::external_body]
fn clone_number(n: &serde_json::Number) -> (r: serde_json::Number)
    ensures
        r == *n,
{
    n.clone()
}

impl Clone for JsonTree {
    #[verifier::loop_isolation(false)]
    fn clone(&self) -> (res: Self)
        ensures
            res@ == self@,
        decreases self,
    {
        match self {
            JsonTree::Null => JsonTree::Null,
            JsonTree::Bool(b) => JsonTree::Bool(*b),
            JsonTree::Num(n) => JsonTree::Num(clone_number(n)),
            JsonTree::Str(s) => JsonTree::Str(s.clone()),
            JsonTree::Arr(items) => {
                let n = items.len();
                let mut out: Vec<JsonTree> = Vec::new();
                let mut k: usize = 0;
                while k < n
                    invariant
                        0 <= k <= n,
                        n == items@.len(),
                        out@.len() == k,
                        forall|i: int| 0 <= i < k ==> #[trigger] out@[i]@ == items@[i]@,
                    decreases n - k,
                {
                    out.push(items[k].clone());
                    k += 1;
                }
                proof {
                    lemma_view_items(out@);
                    lemma_view_items(items@);
                    assert(view_items(out@) =~= view_items(items@));
                }
                JsonTree::Arr(out)
            },
            JsonTree::Obj(fields) => {
                let n = fields.len();
                let mut out: Vec<(String, JsonTree)> = Vec::new();
                let mut k: usize = 0;
                while k < n
                    invariant
                        0 <= k <= n,
                        n == fields@.len(),
                        out@.len() == k,
                        forall|i: int|
                            0 <= i < k ==> (#[trigger] out@[i]).0@ == fields@[i].0@ && out@[i].1@
                                == fields@[i].1@,
                    decreases n - k,
                {
                    let entry = &fields[k];
                    out.push((entry.0.clone(), entry.1.clone()));
                    k += 1;
                }
                proof {
                    lemma_view_fields(out@);
                    lemma_view_fields(fields@);
                    assert(view_fields(out@) =~= view_fields(fields@));
                }
                JsonTree::Obj(out)
            },
        }
    }
}

impl JsonTree {
    pub fn is_null(&self) -> (r: bool)
        ensures
            r == (self@ is Null),
    {
        match self {
            JsonTree::Null => true,
            _ => false,
        }
    }

    /// The first member with the given key, for an object; `None` on any
    /// other kind of tree.
    pub fn get(&self, key: &str) -> (r: Option<&JsonTree>)
        ensures
            match self@ {
                SpecJson::Obj(fields) => match spec_find_key(fields, key@) {
                    Some(i) => r matches Some(v) && v@ == fields[i].1,
                    None => r is None,
                },
                _ => r is None,
            },
    {
        match self {
            JsonTree::Obj(fields) => {
                proof {
                    lemma_view_fields(fields@);
                }
                let n = fields.len();
                let mut k: usize = 0;
                while k < n
                    invariant
                        0 <= k <= n,
                        n == fields@.len(),
                        forall|i: int| 0 <= i < k ==> (#[trigger] fields@[i]).0@ != key@,
                        self@ == SpecJson::Obj(view_fields(fields@)),
                        view_fields(fields@).len() == fields@.len(),
                        forall|i: int|
                            0 <= i < fields@.len() ==> #[trigger] view_fields(fields@)[i] == (
                            fields@[i].0@,
                            fields@[i].1@,
                            ),
                    decreases n - k,
                {
                    if crate::strutil::str_eq(fields[k].0.as_str(), key) {
                        proof {
                            lemma_spec_find_key_prefix(view_fields(fields@), key@, k as int);
                        }
                        return Some(&fields[k].1);
                    }
                    k += 1;
                }
                proof {
                    lemma_spec_find_key(view_fields(fields@), key@);
                    match spec_find_key(view_fields(fields@), key@) {
                        Some(i) => {
                            assert(view_fields(fields@)[i].0 == key@);
                            assert(fields@[i].0@ == key@);
                        },
                        None => (),
                    }
                }
                None
            },
            _ => None,
        }
    }
}

/// Index of the first member with the given key, as an executable search.
#[verifier::loop_isolation(false)]
pub fn find_key_index(fields: &Vec<(String, JsonTree)>, key: &str) -> (r: Option<usize>)
    ensures
        match spec_find_key(view_fields(fields@), key@) {
            Some(i) => 0 <= i < fields@.len() && (r matches Some(j) && j as int == i),
            None => r is None,
        },
{
    proof {
        lemma_view_fields(fields@);
        lemma_spec_find_key(view_fields(fields@), key@);
    }
    let n = fields.len();
    let mut k: usize = 0;
    while k < n
        invariant
            0 <= k <= n,
            forall|i: int| 0 <= i < k ==> (#[trigger] fields@[i]).0@ != key@,
        decreases n - k,
    {
        if crate::strutil::str_eq(fields[k].0.as_str(), key) {
            proof {
                lemma_spec_find_key_prefix(view_fields(fields@), key@, k as int);
            }
            return Some(k);
        }
        k += 1;
    }
    proof {
        lemma_spec_find_key(view_fields(fields@), key@);
        match spec_find_key(view_fields(fields@), key@) {
            Some(i) => {
                assert(view_fields(fields@)[i].0 == key@);
                assert(fields@[i].0@ == key@);
            },
            None => (),
        }
    }
    None
}

/// Wrapping a canonical payload in an adjacent tag gives a canonical tree.
pub proof fn lemma_wrap_canonical(tag: Seq<char>, v: SpecJson)
    requires
        canonical(v),
    ensures
        canonical(wrap_adjacent(tag, v)),
{
    reveal_strlit("@type");
    reveal_strlit("value");
    let fields = seq![("@type"@, SpecJson::Str(tag)), ("value"@, v)];
    assert("@type"@[0] == '@' && "value"@[0] == 'v');
    assert(('@' as u32) < ('v' as u32));
    assert(str_lt("@type"@, "value"@));
    assert(fields_sorted(fields));
    let rest = fields.subrange(1, 2);
    assert(rest =~= seq![("value"@, v)]);
    assert(canonical_fields(Seq::<(Seq<char>, SpecJson)>::empty()));
    assert(rest.subrange(1, 1) =~= Seq::<(Seq<char>, SpecJson)>::empty());
    assert(rest.len() == 1 && rest[0].1 == v);
    assert(canonical(rest[0].1));
    assert(canonical_fields(rest.subrange(1, rest.len() as int)));
    assert(canonical_fields(rest) == (canonical(rest[0].1) && canonical_fields(
        rest.subrange(1, rest.len() as int),
    )));
    assert(canonical_fields(rest));
    assert(fields.subrange(1, fields.len() as int) == rest);
    assert(canonical(SpecJson::Str(tag)));
    assert(fields[0].1 == SpecJson::Str(tag));
    assert(canonical_fields(fields));
}

/// Remove JSON-null members from objects and JSON-null elements from arrays,
/// recursively; scalars pass through unchanged.
#[verifier::loop_isolation(false)]
pub fn remove_nulls(t: &JsonTree) -> (r: JsonTree)
    ensures
        r@ == elide_nulls(t@),
    decreases t,
{
    match t {
        JsonTree::Null => JsonTree::Null,
        JsonTree::Bool(b) => JsonTree::Bool(*b),
        JsonTree::Num(n) => JsonTree::Num(clone_number(n)),
        JsonTree::Str(s) => JsonTree::Str(s.clone()),
        JsonTree::Arr(items) => {
            let n = items.len();
            let mut out: Vec<JsonTree> = Vec::new();
            proof {
                lemma_view_items(items@);
                assert(items@.subrange(0, 0) =~= Seq::<JsonTree>::empty());
                assert(view_items(out@) =~= Seq::<SpecJson>::empty());
            }
            let mut k: usize = 0;
            while k < n
                invariant
                    0 <= k <= n,
                    view_items(out@) == elide_items(view_items(items@).subrange(0, k as int)),
                decreases n - k,
            {
                let cleaned = remove_nulls(&items[k]);
                let ghost prefix = view_items(items@).subrange(0, k as int);
                let ghost prefix1 = view_items(items@).subrange(0, k as int + 1);
                proof {
                    assert(prefix1 =~= prefix.push(items@[k as int]@));
                    lemma_elide_items_push(prefix, items@[k as int]@);
                }
                if !cleaned.is_null() {
                    let ghost old_out = out@;
                    out.push(cleaned);
                    proof {
                        lemma_view_items_push(old_out, out@.last());
                        assert(out@ =~= old_out.push(out@.last()));
                        assert(view_items(out@) =~= elide_items(prefix1));
                    }
                } else {
                    proof {
                        assert(view_items(out@) =~= elide_items(prefix1));
                    }
                }
                k += 1;
            }
            proof {
                assert(view_items(items@).subrange(0, n as int) =~= view_items(items@));
            }
            JsonTree::Arr(out)
        },
        JsonTree::Obj(fields) => {
            let n = fields.len();
            let mut out: Vec<(String, JsonTree)> = Vec::new();
            proof {
                lemma_view_fields(fields@);
                assert(view_fields(fields@).subrange(0, 0) =~= Seq::<(Seq<char>, SpecJson)>::empty());
                assert(view_fields(out@) =~= Seq::<(Seq<char>, SpecJson)>::empty());
            }
            let mut k: usize = 0;
            while k < n
                invariant
                    0 <= k <= n,
                    view_fields(out@) == elide_fields(view_fields(fields@).subrange(0, k as int)),
                decreases n - k,
            {
                let cleaned = remove_nulls(&fields[k].1);
                let ghost prefix = view_fields(fields@).subrange(0, k as int);
                let ghost prefix1 = view_fields(fields@).subrange(0, k as int + 1);
                proof {
                    assert(prefix1 =~= prefix.push((fields@[k as int].0@, fields@[k as int].1@)));
                    lemma_elide_fields_push(prefix, fields@[k as int].0@, fields@[k as int].1@);
                }
                if !cleaned.is_null() {
                    let ghost old_out = out@;
                    out.push((fields[k].0.clone(), cleaned));
                    proof {
                        lemma_view_fields_push(old_out, out@.last());
                        assert(out@ =~= old_out.push(out@.last()));
                        assert(view_fields(out@) =~= elide_fields(prefix1));
                    }
                } else {
                    proof {
                        assert(view_fields(out@) =~= elide_fields(prefix1));
                    }
                }
                k += 1;
            }
            proof {
                assert(view_fields(fields@).subrange(0, n as int) =~= view_fields(fields@));
            }
            JsonTree::Obj(out)
        },
    }
}

pub proof fn lemma_view_items_push(items: Seq<JsonTree>, x: JsonTree)
    ensures
        view_items(items.push(x)) == view_items(items).push(x@),
{
    lemma_view_items(items.push(x));
    lemma_view_items(items);
    assert(view_items(items.push(x)) =~= view_items(items).push(x@));
}

pub proof fn lemma_view_fields_push(fields: Seq<(String, JsonTree)>, e: (String, JsonTree))
    ensures
        view_fields(fields.push(e)) == view_fields(fields).push((e.0@, e.1@)),
{
    lemma_view_fields(fields.push(e));
    lemma_view_fields(fields);
    assert(view_fields(fields.push(e)) =~= view_fields(fields).push((e.0@, e.1@)));
}

/// If the members before index `i` all miss the key and member `i` hits it,
/// then `i` is the first index with that key.
pub proof fn lemma_spec_find_key_prefix(
    fields: Seq<(Seq<char>, SpecJson)>,
    key: Seq<char>,
    i: int,
)
    requires
        0 <= i < fields.len(),
        fields[i].0 == key,
        forall|k: int| 0 <= k < i ==> (#[trigger] fields[k]).0 != key,
    ensures
        spec_find_key(fields, key) == Some(i),
    decreases i,
{
    if i == 0 {
    } else {
        let rest = fields.subrange(1, fields.len() as int);
        assert forall|k: int| 0 <= k < i - 1 implies (#[trigger] rest[k]).0 != key by {
            assert(rest[k] == fields[k + 1]);
        }
        assert(rest[i - 1] == fields[i]);
        lemma_spec_find_key_prefix(rest, key, i - 1);
    }
}

} // verus!
