//! Topic identity: canonical dotted names under an optional namespace
//! prefix, and per-topic broker configuration.

use vstd::prelude::*;
use vstd::string::StringExecFns;

use crate::strmap::StringMap;

verus! {

/// Key under which the specific Avro reader mode is enabled in a consumer
/// configuration.
pub const SPECIFIC_AVRO_READER_CONFIG: &'static str = "specific.avro.reader";

/// Merge or create a configuration with the specific Avro reader enabled:
/// an existing configuration is copied and augmented, a missing one is
/// created fresh.
pub fn with_specific_avro_enabled(serializer_config: Option<&StringMap>) -> (r: StringMap)
    ensures
        r@ == match serializer_config {
            Some(c) => c@.insert("specific.avro.reader"@, "true"@),
            None => Map::<Seq<char>, Seq<char>>::empty().insert(
                "specific.avro.reader"@,
                "true"@,
            ),
        },
{
    let mut config = match serializer_config {
        Some(map) => map.clone(),
        None => StringMap::new(),
    };
    config.insert(SPECIFIC_AVRO_READER_CONFIG, "true");
    config
}

/// The namespace prefix that a raw environment value denotes: empty when
/// the variable is unset or empty, else the value followed by a dot.
pub open spec fn spec_namespace(raw: Option<&str>) -> Seq<char> {
    match raw {
        Some(s) => if s@.len() == 0 {
            Seq::<char>::empty()
        } else {
            s@ + "."@
        },
        None => Seq::<char>::empty(),
    }
}

/// The canonical name of a topic: the namespace prefix, then kind, domain
/// and dataset joined by dots.
pub open spec fn topic_name(
    prefix: Seq<char>,
    kind: Seq<char>,
    domain: Seq<char>,
    dataset: Seq<char>,
) -> Seq<char> {
    prefix + kind + "."@ + domain + "."@ + dataset
}

/// No character of the sequence is a dot.
pub open spec fn dot_free(s: Seq<char>) -> bool {
    forall|i: int| 0 <= i < s.len() ==> s[i] != '.'
}

proof fn lemma_prefix_cancel(p: Seq<char>, x: Seq<char>, y: Seq<char>)
    requires
        p + x == p + y,
    ensures
        x == y,
{
    assert((p + x).len() == p.len() + x.len());
    assert((p + y).len() == p.len() + y.len());
    assert(x.len() == y.len());
    assert forall|i: int| 0 <= i < x.len() implies x[i] == y[i] by {
        assert((p + x)[p.len() + i] == x[i]);
        assert((p + y)[p.len() + i] == y[i]);
    }
    assert(x =~= y);
}

proof fn lemma_dotted_join_injective(a1: Seq<char>, b1: Seq<char>, a2: Seq<char>, b2: Seq<char>)
    requires
        dot_free(a1),
        dot_free(a2),
        a1 + "."@ + b1 == a2 + "."@ + b2,
    ensures
        a1 == a2,
        b1 == b2,
{
    reveal_strlit(".");
    let c = a1 + "."@ + b1;
    assert(c[a1.len() as int] == (a1 + "."@)[a1.len() as int]);
    assert(c[a1.len() as int] == '.');
    assert(c[a2.len() as int] == (a2 + "."@)[a2.len() as int]);
    assert(c[a2.len() as int] == '.');
    if a1.len() < a2.len() {
        assert(c[a1.len() as int] == (a2 + "."@)[a1.len() as int]);
        assert(c[a1.len() as int] == a2[a1.len() as int]);
        assert(false);
    }
    if a2.len() < a1.len() {
        assert(c[a2.len() as int] == (a1 + "."@)[a2.len() as int]);
        assert(c[a2.len() as int] == a1[a2.len() as int]);
        assert(false);
    }
    assert forall|i: int| 0 <= i < a1.len() implies a1[i] == a2[i] by {
        assert(c[i] == (a1 + "."@)[i] && (a1 + "."@)[i] == a1[i]);
        assert(c[i] == (a2 + "."@)[i] && (a2 + "."@)[i] == a2[i]);
    }
    assert(a1 =~= a2);
    assert((a1 + "."@).len() == a1.len() + 1);
    assert((a2 + "."@).len() == a2.len() + 1);
    assert(c.len() == a1.len() + 1 + b1.len());
    assert((a2 + "."@ + b2).len() == a2.len() + 1 + b2.len());
    assert(b1.len() == b2.len());
    assert forall|j: int| 0 <= j < b1.len() implies b1[j] == b2[j] by {
        assert(c[a1.len() + 1 + j] == b1[j]);
        assert((a2 + "."@ + b2)[a2.len() + 1 + j] == b2[j]);
    }
    assert(b1 =~= b2);
}

/// Every kind and domain of the name grammar is dot-free, so the
/// injectivity of `topic_name` below applies to every catalog topic
/// without further assumptions.
pub proof fn lemma_catalog_components_dot_free()
    ensures
        dot_free("application"@),
        dot_free("source"@),
        dot_free("ops"@),
        dot_free("communication"@),
        dot_free("facebook"@),
        dot_free("whatsapp"@),
        dot_free("viber"@),
        dot_free("twilio"@),
        dot_free("google"@),
{
    reveal_strlit("application");
    reveal_strlit("source");
    reveal_strlit("ops");
    reveal_strlit("communication");
    reveal_strlit("facebook");
    reveal_strlit("whatsapp");
    reveal_strlit("viber");
    reveal_strlit("twilio");
    reveal_strlit("google");
}

/// With the namespace prefix fixed, the canonical name determines the
/// triple: two topics with dot-free kinds and domains and the same name
/// have the same kind, domain and dataset.
pub proof fn lemma_topic_name_injective(
    prefix: Seq<char>,
    k1: Seq<char>,
    d1: Seq<char>,
    s1: Seq<char>,
    k2: Seq<char>,
    d2: Seq<char>,
    s2: Seq<char>,
)
    requires
        dot_free(k1),
        dot_free(d1),
        dot_free(k2),
        dot_free(d2),
        topic_name(prefix, k1, d1, s1) == topic_name(prefix, k2, d2, s2),
    ensures
        k1 == k2,
        d1 == d2,
        s1 == s2,
{
    let t1 = k1 + "."@ + (d1 + "."@ + s1);
    let t2 = k2 + "."@ + (d2 + "."@ + s2);
    assert(topic_name(prefix, k1, d1, s1) =~= prefix + t1);
    assert(topic_name(prefix, k2, d2, s2) =~= prefix + t2);
    lemma_prefix_cancel(prefix, t1, t2);
    lemma_dotted_join_injective(k1, d1 + "."@ + s1, k2, d2 + "."@ + s2);
    lemma_dotted_join_injective(d1, s1, d2, s2);
}

/// Holder of the namespace-prefix computation shared by every topic.
pub struct AbstractTopic;

impl AbstractTopic {
    /// The namespace prefix for a raw environment value. The caller reads
    /// the environment once per process and hands the value in.
    pub fn namespace(raw: Option<&str>) -> (r: String)
        ensures
            r@ == spec_namespace(raw),
    {
        match raw {
            Some(s) => {
                if s.is_empty() {
                    String::new()
                } else {
                    crate::strutil::str_concat(s, ".")
                }
            },
            None => String::new(),
        }
    }
}

/// The capability set of a topic: kind, domain, dataset and configuration,
/// with the canonical dotted name derived from them.
pub trait Topic {
    spec fn spec_kind(&self) -> Seq<char>;

    spec fn spec_domain(&self) -> Seq<char>;

    spec fn spec_dataset(&self) -> Seq<char>;

    spec fn spec_config(&self) -> Map<Seq<char>, Seq<char>>;

    fn kind(&self) -> (r: &str)
        ensures
            r@ == self.spec_kind(),
    ;

    fn domain(&self) -> (r: &str)
        ensures
            r@ == self.spec_domain(),
    ;

    fn dataset(&self) -> (r: &str)
        ensures
            r@ == self.spec_dataset(),
    ;

    fn config(&self) -> (r: StringMap)
        ensures
            r@ == self.spec_config(),
    ;

    /// The canonical name: `{prefix}{kind}.{domain}.{dataset}`, where the
    /// prefix comes from the process-wide namespace value handed in by the
    /// caller.
    fn name(&self, namespace: Option<&str>) -> (r: String)
        ensures
            r@ == topic_name(
                spec_namespace(namespace),
                self.spec_kind(),
                self.spec_domain(),
                self.spec_dataset(),
            ),
    {
        let mut out = AbstractTopic::namespace(namespace);
        out.append(self.kind());
        out.append(".");
        out.append(self.domain());
        out.append(".");
        out.append(self.dataset());
        out
    }
}

} // verus!
