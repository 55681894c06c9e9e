//! The object mapper: converts trees to JSON text and back, honoring
//! null-elision, adjacent type-tagging and an ignored-key set.

use vstd::prelude::*;

use crate::json::{
    canonical, elide_nulls, lemma_view_fields, unwrap_adjacent, view_fields,
    wrap_adjacent, JsonTree, SpecJson,
};
use crate::jsonio::{json_from_str, json_parse, json_render, json_text};
use crate::strutil::str_eq;

verus! {

broadcast use vstd::std_specs::vec::group_vec_axioms;

/// How type metadata is emitted.
#[derive(Debug, Clone, Copy, PartialEq, Eq, Structural)]
pub enum TypeTagging {
    /// Do not emit type metadata.
    Untagged,
    /// Emit the adjacent style: an object with a `@type` member naming the
    /// payload type and a `value` member holding the payload.
    Adjacent,
}

/// Configuration for converting values to and from JSON trees. Mappers are
/// cheap immutable value objects.
pub struct HybridObjectMapper {
    /// Whether to include type metadata, and in which style.
    pub type_tagging: TypeTagging,
    /// If true, serialization removes JSON-null members and elements
    /// recursively before emitting text.
    pub omit_null_values: bool,
    /// Keys that are dropped from the top level of dynamic payloads.
    pub ignore_type_names: Vec<String>,
}

impl HybridObjectMapper {
    /// The ignored keys, as a set of character sequences.
    pub open spec fn spec_ignored(&self) -> Set<Seq<char>> {
        Set::new(
            |k: Seq<char>|
                exists|i: int|
                    0 <= i < self.ignore_type_names@.len() && (#[trigger] self.ignore_type_names@[i])@
                        == k,
        )
    }

    /// The tree that this mapper emits for a given input tree, before any
    /// type-tag wrapping.
    pub open spec fn spec_processed(&self, t: SpecJson) -> SpecJson {
        if self.omit_null_values {
            elide_nulls(t)
        } else {
            t
        }
    }

    pub fn new() -> (r: Self)
        ensures
            r.type_tagging == TypeTagging::Untagged,
            r.omit_null_values == true,
            r.spec_ignored() == Set::<Seq<char>>::empty(),
    {
        Self::default()
    }

    /// Add a key to drop during dynamic-value filtering.
    pub fn add_ignored_type(&mut self, name: &str)
        ensures
            final(self).type_tagging == old(self).type_tagging,
            final(self).omit_null_values == old(self).omit_null_values,
            final(self).spec_ignored() == old(self).spec_ignored().insert(name@),
    {
        let ghost before = self.ignore_type_names@;
        self.ignore_type_names.push(name.to_owned());
        proof {
            assert forall|k: Seq<char>|
                self.spec_ignored().contains(k) == old(self).spec_ignored().insert(name@).contains(
                    k,
                ) by {
                if self.spec_ignored().contains(k) {
                    let i = choose|i: int|
                        0 <= i < self.ignore_type_names@.len() && (
                        #[trigger] self.ignore_type_names@[i])@ == k;
                    if i < before.len() {
                        assert(before[i] == self.ignore_type_names@[i]);
                    }
                }
                if old(self).spec_ignored().contains(k) {
                    let i = choose|i: int|
                        0 <= i < before.len() && (#[trigger] before[i])@ == k;
                    assert(self.ignore_type_names@[i] == before[i]);
                }
                if k == name@ {
                    assert((self.ignore_type_names@[before.len() as int])@ == k);
                }
            }
            assert(self.spec_ignored() =~= old(self).spec_ignored().insert(name@));
        }
    }

    /// Whether a key is in the ignored set.
    fn is_ignored(&self, key: &str) -> (r: bool)
        ensures
            r == self.spec_ignored().contains(key@),
    {
        let n = self.ignore_type_names.len();
        let mut i: usize = 0;
        while i < n
            invariant
                0 <= i <= n,
                n == self.ignore_type_names@.len(),
                forall|k: int| 0 <= k < i ==> (#[trigger] self.ignore_type_names@[k])@ != key@,
            decreases n - i,
        {
            if str_eq(self.ignore_type_names[i].as_str(), key) {
                return true;
            }
            i += 1;
        }
        false
    }

    /// Convert a tree per the mapper's settings, returning the processed
    /// tree: null-elision is applied when `omit_null_values` is set.
    pub fn to_json_value(&self, value: &JsonTree) -> (r: Result<JsonTree, serde_json::Error>)
        ensures
            r matches Ok(t) && t@ == self.spec_processed(value@),
    {
        if self.omit_null_values {
            Ok(crate::json::remove_nulls(value))
        } else {
            Ok(value.clone())
        }
    }
}

impl Default for HybridObjectMapper {
    /// The default mapper: no type tagging, null-elision on, nothing ignored.
    fn default() -> (r: Self)
        ensures
            r.type_tagging == TypeTagging::Untagged,
            r.omit_null_values == true,
            r.spec_ignored() == Set::<Seq<char>>::empty(),
    {
        let r = HybridObjectMapper {
            type_tagging: TypeTagging::Untagged,
            omit_null_values: true,
            ignore_type_names: Vec::new(),
        };
        proof {
            assert(r.spec_ignored() =~= Set::<Seq<char>>::empty());
        }
        r
    }
}

impl Clone for HybridObjectMapper {
    fn clone(&self) -> (r: Self)
        ensures
            r.type_tagging == self.type_tagging,
            r.omit_null_values == self.omit_null_values,
            r.ignore_type_names@.len() == self.ignore_type_names@.len(),
            forall|i: int|
                0 <= i < self.ignore_type_names@.len() ==> (#[trigger] r.ignore_type_names@[i])@
                    == self.ignore_type_names@[i]@,
            r.spec_ignored() == self.spec_ignored(),
    {
        let n = self.ignore_type_names.len();
        let mut names: Vec<String> = Vec::new();
        let mut i: usize = 0;
        while i < n
            invariant
                0 <= i <= n,
                n == self.ignore_type_names@.len(),
                names@.len() == i,
                forall|k: int|
                    0 <= k < i ==> (#[trigger] names@[k])@ == self.ignore_type_names@[k]@,
            decreases n - i,
        {
            names.push(self.ignore_type_names[i].clone());
            i += 1;
        }
        let r = HybridObjectMapper {
            type_tagging: self.type_tagging,
            omit_null_values: self.omit_null_values,
            ignore_type_names: names,
        };
        proof {
            assert forall|k: Seq<char>|
                r.spec_ignored().contains(k) == self.spec_ignored().contains(k) by {
                if r.spec_ignored().contains(k) {
                    let i = choose|i: int|
                        0 <= i < r.ignore_type_names@.len() && (
                        #[trigger] r.ignore_type_names@[i])@ == k;
                    assert(self.ignore_type_names@[i]@ == k);
                }
                if self.spec_ignored().contains(k) {
                    let i = choose|i: int|
                        0 <= i < self.ignore_type_names@.len() && (
                        #[trigger] self.ignore_type_names@[i])@ == k;
                    assert(r.ignore_type_names@[i]@ == k);
                }
            }
            assert(r.spec_ignored() =~= self.spec_ignored());
        }
        r
    }
}

/// The tag string that `serialize` emits: the caller-supplied name, or the
/// library's best-effort payload type identifier where none is given.
pub open spec fn spec_tag(tag_name: Option<&str>) -> Seq<char> {
    match tag_name {
        Some(e) => e@,
        None => "monky_utilities::json::JsonTree"@,
    }
}

impl HybridObjectMapper {
    /// The tree whose JSON text `serialize` emits: the processed payload,
    /// wrapped in an adjacent tag when tagging is on.
    pub open spec fn spec_wire(&self, t: SpecJson, tag: Seq<char>) -> SpecJson {
        match self.type_tagging {
            TypeTagging::Untagged => self.spec_processed(t),
            TypeTagging::Adjacent => wrap_adjacent(tag, self.spec_processed(t)),
        }
    }

    /// Serialize a tree into JSON text honoring the mapper settings: with
    /// `omit_null_values`, null members and elements are removed first; with
    /// `Adjacent` tagging the payload is wrapped as an object with `@type`
    /// and `value` members. For canonical input the emitted text parses back
    /// to exactly the emitted tree, as long as that tree stays within the
    /// parser's depth limit.
    pub fn serialize(&self, value: &JsonTree, tag_name: Option<&str>) -> (r: Result<
        String,
        serde_json::Error,
    >)
        ensures
            r is Ok,
            r matches Ok(s) ==> s@ == json_text(self.spec_wire(value@, spec_tag(tag_name))) && (
            canonical(value@) && crate::json::depth(self.spec_wire(value@, spec_tag(tag_name)))
                <= crate::jsonio::parse_depth_limit() ==> json_parse(s@) == Some(
                self.spec_wire(value@, spec_tag(tag_name)),
            )),
    {
        proof {
            if canonical(value@) && self.omit_null_values {
                crate::json::lemma_elide_preserves_canonical(value@);
            }
        }
        let processed = if self.omit_null_values {
            crate::json::remove_nulls(value)
        } else {
            value.clone()
        };
        match self.type_tagging {
            TypeTagging::Adjacent => {
                let tn: String = match tag_name {
                    Some(e) => e.to_owned(),
                    None => infer_type_name(),
                };
                proof {
                    if canonical(value@) {
                        crate::json::lemma_wrap_canonical(tn@, processed@);
                    }
                }
                let mut fields: Vec<(String, JsonTree)> = Vec::new();
                fields.push(("@type".to_owned(), JsonTree::Str(tn)));
                fields.push(("value".to_owned(), processed));
                let ghost fseq = fields@;
                let wrapped = JsonTree::Obj(fields);
                proof {
                    lemma_view_fields(fseq);
                    assert(view_fields(fseq) =~= seq![
                        ("@type"@, fseq[0].1@),
                        ("value"@, fseq[1].1@),
                    ]);
                    assert(wrapped@ == wrap_adjacent(spec_tag(tag_name), self.spec_processed(
                        value@,
                    )));
                }
                json_render(&wrapped)
            },
            TypeTagging::Untagged => json_render(&processed),
        }
    }

    /// Parse JSON text into a tree. Succeeds exactly on well-formed JSON;
    /// the resulting tree is canonical.
    pub fn deserialize(&self, s: &str) -> (r: Result<JsonTree, serde_json::Error>)
        ensures
            r matches Ok(t) ==> json_parse(s@) == Some(t@) && canonical(t@),
            r is Err ==> json_parse(s@) is None,
    {
        json_from_str(s)
    }

    /// Parse JSON text and strip an adjacent type wrapper if one is present:
    /// when the parsed tree is an object whose `@type` member is a string
    /// and which has a `value` member, the `value` member is returned;
    /// otherwise the whole tree is. The tag itself is never validated.
    pub fn deserialize_with_type(&self, s: &str) -> (r: Result<JsonTree, serde_json::Error>)
        ensures
            r matches Ok(t) ==> match json_parse(s@) {
                Some(u) => t@ == unwrap_adjacent(u),
                None => false,
            },
            r is Err <==> json_parse(s@) is None,
    {
        let parsed = match json_from_str(s) {
            Ok(t) => t,
            Err(e) => {
                return Err(e);
            },
        };
        match parsed {
            JsonTree::Obj(mut fields) => {
                proof {
                    lemma_view_fields(fields@);
                }
                let tagged = match crate::json::find_key_index(&fields, "@type") {
                    Some(i) => matches!(&fields[i].1, JsonTree::Str(_)),
                    None => false,
                };
                if tagged {
                    match crate::json::find_key_index(&fields, "value") {
                        Some(j) => {
                            let ghost before = fields@;
                            let entry = fields.remove(j);
                            proof {
                                assert(entry == before[j as int]);
                                assert(view_fields(before)[j as int] == (
                                    before[j as int].0@,
                                    before[j as int].1@,
                                ));
                            }
                            return Ok(entry.1);
                        },
                        None => (),
                    }
                }
                Ok(JsonTree::Obj(fields))
            },
            other => Ok(other),
        }
    }
}

/// Drop ignored keys from the top level of an object, then apply
/// null-elision to each remaining member value; members whose value is
/// JSON-null itself are kept.
pub open spec fn filter_fields(
    ignored: Set<Seq<char>>,
    fields: Seq<(Seq<char>, SpecJson)>,
) -> Seq<(Seq<char>, SpecJson)>
    decreases fields.len(),
{
    if fields.len() == 0 {
        Seq::empty()
    } else {
        let rest = filter_fields(ignored, fields.subrange(1, fields.len() as int));
        if ignored.contains(fields[0].0) {
            rest
        } else {
            seq![(fields[0].0, elide_nulls(fields[0].1))] + rest
        }
    }
}

pub proof fn lemma_filter_fields_push(
    ignored: Set<Seq<char>>,
    s: Seq<(Seq<char>, SpecJson)>,
    k: Seq<char>,
    x: SpecJson,
)
    ensures
        filter_fields(ignored, s.push((k, x))) == filter_fields(ignored, s) + (if ignored.contains(
            k,
        ) {
            Seq::<(Seq<char>, SpecJson)>::empty()
        } else {
            seq![(k, elide_nulls(x))]
        }),
    decreases s.len(),
{
    let tail = if ignored.contains(k) {
        Seq::<(Seq<char>, SpecJson)>::empty()
    } else {
        seq![(k, elide_nulls(x))]
    };
    if s.len() == 0 {
        assert(s.push((k, x)).subrange(1, 1) =~= Seq::<(Seq<char>, SpecJson)>::empty());
        assert(s.push((k, x))[0] == (k, x));
        assert(filter_fields(ignored, s.push((k, x))) == if ignored.contains(k) {
            filter_fields(ignored, Seq::<(Seq<char>, SpecJson)>::empty())
        } else {
            seq![(k, elide_nulls(x))] + filter_fields(ignored, Seq::<(Seq<char>, SpecJson)>::empty())
        });
        assert(filter_fields(ignored, s) + tail =~= tail);
        assert(filter_fields(ignored, s.push((k, x))) =~= tail);
    } else {
        let rest0 = s.subrange(1, s.len() as int);
        lemma_filter_fields_push(ignored, rest0, k, x);
        assert(s.push((k, x))[0] == s[0]);
        assert(s.push((k, x)).subrange(1, s.push((k, x)).len() as int) =~= rest0.push((k, x)));
        if ignored.contains(s[0].0) {
            assert(filter_fields(ignored, s.push((k, x))) == filter_fields(
                ignored,
                rest0.push((k, x)),
            ));
        } else {
            assert(filter_fields(ignored, s.push((k, x))) == seq![(s[0].0, elide_nulls(s[0].1))]
                + filter_fields(ignored, rest0.push((k, x))));
            assert(seq![(s[0].0, elide_nulls(s[0].1))] + (filter_fields(ignored, rest0) + tail)
                =~= (seq![(s[0].0, elide_nulls(s[0].1))] + filter_fields(ignored, rest0)) + tail);
        }
    }
}

impl HybridObjectMapper {
    /// What `filter_dynamic_value` produces: on an object, ignored keys are
    /// dropped and each remaining member value gets null-elision; on any
    /// other tree, null-elision applies only when `omit_null_values` is set.
    pub open spec fn spec_filter_dynamic(&self, t: SpecJson) -> SpecJson {
        match t {
            SpecJson::Obj(fields) => SpecJson::Obj(filter_fields(self.spec_ignored(), fields)),
            _ => if self.omit_null_values {
                elide_nulls(t)
            } else {
                t
            },
        }
    }

    /// Apply the ignored-key and null-elision filters to an already-built
    /// dynamic tree.
    #[verifier::loop_isolation(false)]
    pub fn filter_dynamic_value(&self, v: JsonTree) -> (r: JsonTree)
        ensures
            r@ == self.spec_filter_dynamic(v@),
    {
        match v {
            JsonTree::Obj(fields) => {
                let ghost gignored = self.spec_ignored();
                let ghost gfields = view_fields(fields@);
                let n = fields.len();
                let mut out: Vec<(String, JsonTree)> = Vec::new();
                proof {
                    lemma_view_fields(fields@);
                    assert(gfields.subrange(0, 0) =~= Seq::<(Seq<char>, SpecJson)>::empty());
                    assert(view_fields(out@) =~= Seq::<(Seq<char>, SpecJson)>::empty());
                }
                let mut k: usize = 0;
                while k < n
                    invariant
                        0 <= k <= n,
                        view_fields(out@) == filter_fields(gignored, gfields.subrange(0, k as int)),
                    decreases n - k,
                {
                    let ghost prefix = gfields.subrange(0, k as int);
                    let ghost prefix1 = gfields.subrange(0, k as int + 1);
                    proof {
                        assert(prefix1 =~= prefix.push((fields@[k as int].0@, fields@[k as int].1@)));
                        lemma_filter_fields_push(
                            gignored,
                            prefix,
                            fields@[k as int].0@,
                            fields@[k as int].1@,
                        );
                    }
                    if !self.is_ignored(fields[k].0.as_str()) {
                        let cleaned = crate::json::remove_nulls(&fields[k].1);
                        let ghost old_out = out@;
                        out.push((fields[k].0.clone(), cleaned));
                        proof {
                            crate::json::lemma_view_fields_push(old_out, out@.last());
                            assert(out@ =~= old_out.push(out@.last()));
                            assert(view_fields(out@) =~= filter_fields(gignored, prefix1));
                        }
                    } else {
                        proof {
                            assert(view_fields(out@) =~= filter_fields(gignored, prefix1));
                        }
                    }
                    k += 1;
                }
                proof {
                    assert(gfields.subrange(0, n as int) =~= gfields);
                }
                JsonTree::Obj(out)
            },
            other => {
                if self.omit_null_values {
                    crate::json::remove_nulls(&other)
                } else {
                    other
                }
            },
        }
    }
}

/// A best-effort identifier for the payload type carried in adjacent tags.
/// The emitted name is descriptive only and not part of any stable contract;
/// callers that need cross-runtime interop pass an explicit name instead.
pub fn infer_type_name() -> (r: String)
    ensures
        r@ == "monky_utilities::json::JsonTree"@,
{
    "monky_utilities::json::JsonTree".to_owned()
}

} // verus!
