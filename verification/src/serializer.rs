//! The envelope encoder: prepend the magic byte to the mapper's JSON text.

use vstd::prelude::*;
use vstd::string::StringSliceAdditionalSpecFns;

use crate::deserializer::decoded_envelope;
use crate::json::{canonical, unwrap_adjacent, JsonTree};
use crate::jsonio::{json_parse, json_text};
use crate::mapper::{spec_tag, HybridObjectMapper};
use crate::MONKY_MAGIC_BYTE;

verus! {

/// The I/O error type of the standard library, declared so that it can be
/// carried in results.
#[verifier::external_type_specification]
#[verifier::external_body]
pub struct ExIoError(std::io::Error);

/// Errors raised while encoding an envelope.
#[derive(Debug)]
pub enum SerializationError {
    /// Writing to the output buffer failed.
    Io(std::io::Error),
    /// The payload could not be emitted as JSON.
    Json(serde_json::Error),
}

/// Stateless encoder. It prepends the magic byte and writes the JSON text
/// of the payload, as the mapper emits it.
pub struct KafkaSerializer {
    mapper: HybridObjectMapper,
}

impl KafkaSerializer {
    /// The mapper this encoder writes through.
    pub closed spec fn spec_mapper(&self) -> HybridObjectMapper {
        self.mapper
    }

    /// An encoder over a default-configured mapper.
    pub fn new() -> (r: Self)
        ensures
            r.spec_mapper().type_tagging == crate::mapper::TypeTagging::Untagged,
            r.spec_mapper().omit_null_values == true,
    {
        KafkaSerializer { mapper: HybridObjectMapper::new() }
    }

    /// An encoder over a preconfigured mapper.
    pub fn with_mapper(mapper: HybridObjectMapper) -> (r: Self)
        ensures
            r.spec_mapper() == mapper,
    {
        KafkaSerializer { mapper }
    }

    /// Encode a tree into a byte buffer that begins with the magic byte and
    /// continues with the UTF-8 JSON text of the wire tree: the payload with
    /// null-elision applied when the mapper omits nulls, wrapped in an
    /// adjacent type tag when the mapper tags. For canonical input nested
    /// less deeply than the parser's limit, decoding the produced buffer
    /// gives back exactly the wire tree with its tag stripped.
    ///
    /// The `topic` parameter is accepted for interface symmetry and does not
    /// influence the output.
    #[verifier::loop_isolation(false)]
    pub fn serialize(&self, _topic: &str, data: &JsonTree) -> (r: Result<
        Vec<u8>,
        SerializationError,
    >)
        ensures
            r is Ok,
            r matches Ok(bytes) ==> {
                let wire = self.spec_mapper().spec_wire(data@, spec_tag(Option::<&str>::None));
                &&& bytes@.len() >= 1
                &&& bytes@[0] == MONKY_MAGIC_BYTE
                &&& bytes@ == seq![MONKY_MAGIC_BYTE] + vstd::utf8::encode_utf8(json_text(wire))
                &&& (canonical(data@) && crate::json::depth(data@)
                    < crate::jsonio::parse_depth_limit() ==> decoded_envelope(bytes@) == Some(
                    unwrap_adjacent(wire),
                ))
            },
    {
        proof {
            if crate::json::depth(data@) < crate::jsonio::parse_depth_limit()
                && self.mapper.omit_null_values {
                crate::json::lemma_elide_nulls_depth(data@);
            }
        }
        let text = match self.mapper.serialize(data, Option::None) {
            Ok(s) => s,
            Err(e) => {
                return Err(SerializationError::Json(e));
            },
        };
        let ghost wire = self.mapper.spec_wire(data@, spec_tag(Option::<&str>::None));
        let mut out: Vec<u8> = Vec::new();
        out.push(MONKY_MAGIC_BYTE);
        let sb = text.as_str().as_bytes();
        let n = sb.len();
        let mut i: usize = 0;
        while i < n
            invariant
                0 <= i <= n,
                out@ == seq![MONKY_MAGIC_BYTE] + sb@.subrange(0, i as int),
            decreases n - i,
        {
            out.push(sb[i]);
            proof {
                assert(seq![MONKY_MAGIC_BYTE] + sb@.subrange(0, i as int + 1) =~= (seq![
                    MONKY_MAGIC_BYTE,
                ] + sb@.subrange(0, i as int)).push(sb@[i as int]));
            }
            i += 1;
        }
        proof {
            assert(sb@.subrange(0, n as int) =~= sb@);
            assert(out@ == seq![MONKY_MAGIC_BYTE] + vstd::utf8::encode_utf8(text@));
            assert(out@.subrange(1, out@.len() as int) =~= vstd::utf8::encode_utf8(text@));
            vstd::utf8::encode_utf8_valid_utf8(text@);
            vstd::utf8::encode_utf8_decode_utf8(text@);
            if canonical(data@) && crate::json::depth(data@) < crate::jsonio::parse_depth_limit() {
                let processed = self.mapper.spec_processed(data@);
                match self.mapper.type_tagging {
                    crate::mapper::TypeTagging::Untagged => {
                        assert(wire == processed);
                    },
                    crate::mapper::TypeTagging::Adjacent => {
                        let tag = spec_tag(Option::<&str>::None);
                        let fields = seq![
                            ("@type"@, crate::json::SpecJson::Str(tag)),
                            ("value"@, processed),
                        ];
                        assert(wire == crate::json::SpecJson::Obj(fields));
                        let rest = fields.subrange(1, 2);
                        assert(rest =~= seq![("value"@, processed)]);
                        assert(rest.subrange(1, 1) =~= Seq::<
                            (Seq<char>, crate::json::SpecJson),
                        >::empty());
                        assert(crate::json::depth_fields(
                            Seq::<(Seq<char>, crate::json::SpecJson)>::empty(),
                        ) == 0);
                        assert(rest[0].1 == processed && rest.len() == 1);
                        assert(crate::json::depth_fields(rest) == crate::json::depth(processed));
                        assert(fields.subrange(1, fields.len() as int) == rest);
                        assert(crate::json::depth(fields[0].1) == 0);
                        assert(crate::json::depth_fields(fields) == crate::json::depth(processed));
                        assert(crate::json::depth(wire) == 1 + crate::json::depth(processed));
                    },
                }
                assert(crate::json::depth(wire) <= crate::jsonio::parse_depth_limit());
            }
        }
        Ok(out)
    }
}

} // verus!
