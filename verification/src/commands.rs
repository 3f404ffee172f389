//! The Monitor-and-Test command catalog: per-opcode request and response
//! schemas, typed encoding of request parameters and typed decoding of
//! response payloads.
use crate::map::{assoc_idx, lemma_assoc_idx, spec_assoc, str_eq};
use crate::parameters::{
    spec_read_param, ParameterError, ParameterType, ParameterValue, ParameterValueView,
};
use crate::slice_writer::SliceWriter;
use crate::unpi::{MessageType, Subsystem};
use vstd::prelude::*;

verus! {

/// The most fields a request or response schema can carry.
pub const MAX_COMMAND_SIZE: usize = 15;

/// An ordered request or response schema: field names with their kinds.
pub type Schema = Vec<(&'static str, ParameterType)>;

/// One command descriptor: its stable name, opcode, message type, and
/// the ordered request and response schemas. An asynchronous command
/// carries no response schema.
#[derive(Debug)]
pub struct Command {
    pub name: &'static str,
    pub id: u8,
    pub command_type: MessageType,
    pub request: Option<Schema>,
    pub response: Option<Schema>,
}

/// The mathematical image of a command descriptor.
pub struct CommandView {
    pub name: Seq<char>,
    pub id: u8,
    pub command_type: MessageType,
    pub request: Option<Seq<(&'static str, ParameterType)>>,
    pub response: Option<Seq<(&'static str, ParameterType)>>,
}

impl View for Command {
    type V = CommandView;

    open spec fn view(&self) -> CommandView {
        CommandView {
            name: self.name@,
            id: self.id,
            command_type: self.command_type,
            request: match self.request {
                Some(ref v) => Some(v@),
                None => None,
            },
            response: match self.response {
                Some(ref v) => Some(v@),
                None => None,
            },
        }
    }
}

/// A schema is well formed when it fits the parameter map and no field
/// name repeats.
pub open spec fn schema_wf(schema: Seq<(&'static str, ParameterType)>) -> bool {
    &&& schema.len() <= MAX_COMMAND_SIZE
    &&& forall|i: int, j: int| 0 <= i < j < schema.len() ==> schema[i].0@ != schema[j].0@
}

impl CommandView {
    pub open spec fn wf(self) -> bool {
        &&& self.request matches Some(sch) ==> schema_wf(sch)
        &&& self.response matches Some(sch) ==> schema_wf(sch)
    }
}

/// The payload that filling `schema` with `params` produces: each given
/// parameter's bytes in the given order, provided every name is in the
/// schema and every value fits its declared kind.
pub open spec fn spec_fill(
    params: Seq<(&'static str, ParameterValue)>,
    schema: Seq<(&'static str, ParameterType)>,
) -> Result<Seq<u8>, ParameterError>
    decreases params.len(),
{
    if params.len() == 0 {
        Ok(Seq::empty())
    } else {
        match spec_assoc(schema, params[0].0@) {
            None => Err(ParameterError::NoCommandWithName),
            Some(t) => if params[0].1@.spec_matches_type(t) {
                match spec_fill(params.drop_first(), schema) {
                    Ok(rest) => Ok(params[0].1@.spec_bytes() + rest),
                    Err(e) => Err(e),
                }
            } else {
                Err(ParameterError::InvalidParameter)
            },
        }
    }
}

/// The kind declared for `key`, if the schema has the field.
fn schema_get(schema: &Schema, key: &str) -> (r: Option<ParameterType>)
    ensures
        r == spec_assoc(schema@, key@),
{
    proof {
        lemma_assoc_idx(schema@, key@);
    }
    let mut i: usize = 0;
    while i < schema.len()
        invariant
            i <= schema@.len(),
            forall|j: int| 0 <= j < i ==> schema@[j].0@ != key@,
        decreases schema@.len() - i,
    {
        if str_eq(schema[i].0, key) {
            proof {
                lemma_assoc_idx(schema@, key@);
            }
            return Some(schema[i].1);
        }
        i = i + 1;
    }
    None
}

impl Command {
    /// Encodes `parameters` into `output` against this command's request
    /// schema, exactly as `spec_fill` says; a command without a request
    /// schema writes nothing.
    pub fn fill_and_write(
        &self,
        parameters: &[(&'static str, ParameterValue)],
        output: &mut SliceWriter,
    ) -> (r: Result<usize, ParameterError>)
        requires
            forall|i: int| 0 <= i < parameters@.len() ==> (#[trigger] parameters@[i]).1.wf(),
        ensures
            self@.request is None ==> r == Ok::<usize, ParameterError>(0) && *final(output)
                == *old(output),
            self@.request matches Some(sch) ==> (match spec_fill(parameters@, sch) {
                Ok(bytes) => r matches Ok(n) && n == bytes.len() && final(output).out@ == old(
                    output,
                ).out@ + bytes,
                Err(e) => r == Err::<usize, ParameterError>(e),
            }),
    {
        let request = match &self.request {
            Some(request) => request,
            None => {
                return Ok(0);
            },
        };
        let ghost sch = request@;
        let ghost base = output.out@;
        let before = output.len();
        let mut i: usize = 0;
        proof {
            assert(parameters@.skip(0) =~= parameters@);
            assert(base + Seq::<u8>::empty() =~= base);
        }
        while i < parameters.len()
            invariant
                i <= parameters@.len(),
                forall|k: int| 0 <= k < parameters@.len() ==> (#[trigger] parameters@[k]).1.wf(),
                self@.request matches Some(s) && s == sch,
                sch == request@,
                base == old(output).out@,
                before == base.len(),
                base.len() <= output.out@.len(),
                base =~= output.out@.subrange(0, base.len() as int),
                spec_fill(parameters@, sch) == (match spec_fill(
                    parameters@.skip(i as int),
                    sch,
                ) {
                    Ok(rest) => Ok::<Seq<u8>, ParameterError>(
                        output.out@.subrange(base.len() as int, output.out@.len() as int) + rest,
                    ),
                    Err(e) => Err::<Seq<u8>, ParameterError>(e),
                }),
            decreases parameters@.len() - i,
        {
            let ghost acc = output.out@.subrange(base.len() as int, output.out@.len() as int);
            proof {
                assert(parameters@.skip(i as int)[0] == parameters@[i as int]);
                assert(parameters@.skip(i as int).drop_first() =~= parameters@.skip(i + 1));
            }
            let pair = vstd::slice::slice_index_get(parameters, i);
            let t = match schema_get(request, pair.0) {
                Some(t) => t,
                None => {
                    return Err(ParameterError::NoCommandWithName);
                },
            };
            match pair.1.match_and_write(&t, output) {
                Ok(_) => {},
                Err(e) => {
                    return Err(e);
                },
            }
            i = i + 1;
            proof {
                assert(output.out@.subrange(base.len() as int, output.out@.len() as int) =~= acc
                    + parameters@[i - 1].1@.spec_bytes());
                assert(base =~= output.out@.subrange(0, base.len() as int));
                if spec_fill(parameters@.skip(i as int), sch) is Ok {
                    let rest = spec_fill(parameters@.skip(i as int), sch)->Ok_0;
                    assert((acc + parameters@[i - 1].1@.spec_bytes()) + rest =~= acc + (
                    parameters@[i - 1].1@.spec_bytes() + rest));
                }
            }
        }
        let after = output.len();
        proof {
            assert(parameters@.skip(parameters@.len() as int) =~= Seq::<
                (&'static str, ParameterValue),
            >::empty());
            let acc = output.out@.subrange(base.len() as int, output.out@.len() as int);
            assert(acc + Seq::<u8>::empty() =~= acc);
            assert(output.out@ =~= base + acc);
        }
        Ok(after - before)
    }
}

} // verus!

verus! {

use crate::map::{first_key_idx, first_none_idx, lemma_first_key_idx, lemma_first_none_idx,
    slot_has_key, StaticMap};
use crate::slice_reader::{le16_at, SliceReader};

/// The decoded parameters of one response, keyed by field name.
pub type ParametersValueMap = StaticMap<MAX_COMMAND_SIZE, ParameterValue>;

/// What reading the fields of `schema` in order from `data` at `pos`
/// yields: the named field images and the position after them, or the
/// first failure.
pub open spec fn spec_read_fields(
    schema: Seq<(&'static str, ParameterType)>,
    data: Seq<u8>,
    pos: int,
) -> Result<(Seq<(&'static str, ParameterValueView)>, int), ParameterError>
    decreases schema.len(),
{
    if schema.len() == 0 {
        Ok((Seq::empty(), pos))
    } else {
        match spec_read_param(schema[0].1, data, pos) {
            Err(e) => Err(e),
            Ok((v, p2)) => match spec_read_fields(schema.drop_first(), data, p2) {
                Err(e) => Err(e),
                Ok((rest, p3)) => Ok((seq![(schema[0].0, v)] + rest, p3)),
            },
        }
    }
}

/// The variable-length device-info response: a fixed head, then as many
/// 16-bit device addresses as `num_assoc_devices` says.
pub open spec fn spec_read_device_info(data: Seq<u8>) -> Result<
    Seq<(&'static str, ParameterValueView)>,
    ParameterError,
> {
    if data.len() < 14 {
        Err(ParameterError::Io)
    } else {
        let n = data[13] as int;
        if data.len() - 14 < 2 * n {
            Err(ParameterError::Io)
        } else {
            Ok(
                seq![
                    ("status", ParameterValueView::U8(data[0])),
                    ("ieee_addr", ParameterValueView::IeeAddress(data.subrange(1, 9))),
                    ("short_addr", ParameterValueView::U16(le16_at(data, 9) as u16)),
                    ("device_type", ParameterValueView::U8(data[11])),
                    ("device_state", ParameterValueView::U8(data[12])),
                    ("num_assoc_devices", ParameterValueView::U8(data[13])),
                    (
                        "assoc_devices_list",
                        ParameterValueView::ListU16(
                            Seq::new(n as nat, |j: int| le16_at(data, 14 + 2 * j) as u16),
                        ),
                    ),
                ],
            )
        }
    }
}

/// Does the map hold exactly `fields`, in slot order, with free slots
/// after them?
pub open spec fn map_matches_fields(
    m: ParametersValueMap,
    fields: Seq<(&'static str, ParameterValueView)>,
) -> bool {
    &&& m.wf()
    &&& fields.len() <= MAX_COMMAND_SIZE
    &&& forall|i: int|
        0 <= i < fields.len() ==> ((#[trigger] m.slots@[i]) matches Some(kv) && kv.0@
            == fields[i].0@ && kv.1@ == fields[i].1 && kv.1.wf())
    &&& forall|i: int| fields.len() <= i < MAX_COMMAND_SIZE ==> m.slots@[i] is None
}

/// Packs decoded fields with distinct names into a fresh parameter map,
/// in order.
fn pairs_to_map(pairs: Vec<(&'static str, ParameterValue)>) -> (r: ParametersValueMap)
    requires
        pairs@.len() <= MAX_COMMAND_SIZE,
        forall|i: int, j: int| 0 <= i < j < pairs@.len() ==> pairs@[i].0@ != pairs@[j].0@,
        forall|i: int| 0 <= i < pairs@.len() ==> (#[trigger] pairs@[i]).1.wf(),
    ensures
        r.wf(),
        forall|i: int| 0 <= i < pairs@.len() ==> r.slots@[i] == Some(pairs@[i]),
        forall|i: int| pairs@.len() <= i < MAX_COMMAND_SIZE ==> r.slots@[i] is None,
{
    let mut m: ParametersValueMap = StaticMap::empty();
    let mut i: usize = 0;
    while i < pairs.len()
        invariant
            i <= pairs@.len(),
            pairs@.len() <= MAX_COMMAND_SIZE,
            forall|a: int, b: int| 0 <= a < b < pairs@.len() ==> pairs@[a].0@ != pairs@[b].0@,
            m.wf(),
            forall|j: int| 0 <= j < i ==> m.slots@[j] == Some(pairs@[j]),
            forall|j: int| i <= j < MAX_COMMAND_SIZE ==> m.slots@[j] is None,
        decreases pairs@.len() - i,
    {
        let pair = *vstd::slice::slice_index_get(pairs.as_slice(), i);
        proof {
            lemma_first_key_idx(m.slots@, pair.0@);
            lemma_first_none_idx(m.slots@);
            assert(first_key_idx(m.slots@, pair.0@) < 0) by {
                if first_key_idx(m.slots@, pair.0@) >= 0 {
                    let idx = first_key_idx(m.slots@, pair.0@);
                    assert(slot_has_key(m.slots@[idx], pair.0@));
                }
            }
            assert(first_none_idx(m.slots@) == i as int) by {
                let idx = first_none_idx(m.slots@);
                assert(m.slots@[i as int] is None);
            }
        }
        let _ = m.insert(pair.0, pair.1);
        i = i + 1;
    }
    m
}

impl Command {
    /// Decodes a response payload against this command's response schema,
    /// field by field in schema order; `get_device_info` reads its
    /// trailing list by the count carried in the same frame. A command
    /// without a response schema has nothing to decode.
    pub fn read_and_fill(&self, input: &[u8]) -> (r: Result<ParametersValueMap, ParameterError>)
        requires
            self@.wf(),
        ensures
            self@.response is None ==> r == Err::<ParametersValueMap, ParameterError>(
                ParameterError::ResponseMismatch,
            ),
            self@.response matches Some(sch) ==> (if self@.name == "get_device_info"@ {
                match spec_read_device_info(input@) {
                    Ok(fields) => r matches Ok(m) && map_matches_fields(m, fields),
                    Err(e) => r == Err::<ParametersValueMap, ParameterError>(e),
                }
            } else {
                match spec_read_fields(sch, input@, 0) {
                    Ok((fields, _)) => r matches Ok(m) && map_matches_fields(m, fields),
                    Err(e) => r == Err::<ParametersValueMap, ParameterError>(e),
                }
            }),
    {
        let response = match &self.response {
            Some(response) => response,
            None => {
                return Err(ParameterError::ResponseMismatch);
            },
        };
        let mut reader = SliceReader::new(input);
        if str_eq(self.name, "get_device_info") {
            return Self::read_device_info(&mut reader);
        }
        let ghost sch = response@;
        let mut pairs: Vec<(&'static str, ParameterValue)> = Vec::new();
        let mut i: usize = 0;
        proof {
            assert(sch.skip(0) =~= sch);
        }
        while i < response.len()
            invariant
                i <= sch.len(),
                self@.name != "get_device_info"@,
                self@.response matches Some(s) && s == sch,
                sch == response@,
                schema_wf(sch),
                reader.wf(),
                reader.data@ == input@,
                pairs@.len() == i,
                forall|j: int| 0 <= j < i ==> (#[trigger] pairs@[j]).0@ == sch[j].0@,
                forall|j: int| 0 <= j < i ==> (#[trigger] pairs@[j]).1.wf(),
                spec_read_fields(sch, input@, 0) == (match spec_read_fields(
                    sch.skip(i as int),
                    input@,
                    reader.pos as int,
                ) {
                    Ok((rest, p)) => Ok::<
                        (Seq<(&'static str, ParameterValueView)>, int),
                        ParameterError,
                    >((pairs_view(pairs@) + rest, p)),
                    Err(e) => Err::<(Seq<(&'static str, ParameterValueView)>, int), ParameterError>(
                        e,
                    ),
                }),
            decreases sch.len() - i,
        {
            proof {
                assert(sch.skip(i as int)[0] == sch[i as int]);
                assert(sch.skip(i as int).drop_first() =~= sch.skip(i + 1));
            }
            let ghost before_views = pairs_view(pairs@);
            let name = response[i].0;
            let t = response[i].1;
            let value = match t.from_slice_reader(&mut reader) {
                Ok(v) => v,
                Err(e) => {
                    return Err(e);
                },
            };
            pairs.push((name, value));
            i = i + 1;
            proof {
                assert(pairs_view(pairs@) =~= before_views + seq![
                    (sch[i - 1].0, value@),
                ]);
                if spec_read_fields(sch.skip(i as int), input@, reader.pos as int) is Ok {
                    let rest = spec_read_fields(sch.skip(i as int), input@, reader.pos as int)->Ok_0.0;
                    assert((before_views + seq![(sch[i - 1].0, value@)]) + rest =~= before_views
                        + (seq![(sch[i - 1].0, value@)] + rest));
                }
            }
        }
        proof {
            assert(sch.skip(sch.len() as int) =~= Seq::<(&'static str, ParameterType)>::empty());
            let fields = spec_read_fields(sch, input@, 0)->Ok_0.0;
            assert(pairs_view(pairs@) + Seq::<(&'static str, ParameterValueView)>::empty()
                =~= pairs_view(pairs@));
            assert(fields == pairs_view(pairs@));
            assert forall|a: int, b: int|
                0 <= a < b < pairs@.len() implies pairs@[a].0@ != pairs@[b].0@ by {
                reveal_strlit("status");
                reveal_strlit("ieee_addr");
                reveal_strlit("short_addr");
                reveal_strlit("device_type");
                reveal_strlit("device_state");
                reveal_strlit("num_assoc_devices");
                reveal_strlit("assoc_devices_list");
                assert(pairs@[a].0@ == sch[a].0@);
                assert(pairs@[b].0@ == sch[b].0@);
            }
        }
        let m = pairs_to_map(pairs);
        Ok(m)
    }

    /// Reads the device-info response: fixed head, then the trailing
    /// 16-bit address list sized by `num_assoc_devices`.
    fn read_device_info(reader: &mut SliceReader) -> (r: Result<ParametersValueMap, ParameterError>)
        requires
            old(reader).wf(),
            old(reader).pos == 0,
        ensures
            match spec_read_device_info(old(reader).data@) {
                Ok(fields) => r matches Ok(m) && map_matches_fields(m, fields),
                Err(e) => r == Err::<ParametersValueMap, ParameterError>(e),
            },
    {
        let status = match ParameterType::U8.from_slice_reader(reader) {
            Ok(v) => v,
            Err(e) => {
                return Err(e);
            },
        };
        let ieee = match ParameterType::IeeeAddress.from_slice_reader(reader) {
            Ok(v) => v,
            Err(e) => {
                return Err(e);
            },
        };
        let short_addr = match ParameterType::U16.from_slice_reader(reader) {
            Ok(v) => v,
            Err(e) => {
                return Err(e);
            },
        };
        let device_type = match ParameterType::U8.from_slice_reader(reader) {
            Ok(v) => v,
            Err(e) => {
                return Err(e);
            },
        };
        let device_state = match ParameterType::U8.from_slice_reader(reader) {
            Ok(v) => v,
            Err(e) => {
                return Err(e);
            },
        };
        let num = match ParameterType::U8.from_slice_reader(reader) {
            Ok(v) => v,
            Err(e) => {
                return Err(e);
            },
        };
        let n = match num.try_into_u8() {
            Ok(n) => n,
            Err(e) => {
                return Err(e);
            },
        };
        let list = match ParameterType::ListU16(Some(n as usize)).from_slice_reader(reader) {
            Ok(v) => v,
            Err(e) => {
                return Err(e);
            },
        };
        let mut pairs: Vec<(&'static str, ParameterValue)> = Vec::new();
        pairs.push(("status", status));
        pairs.push(("ieee_addr", ieee));
        pairs.push(("short_addr", short_addr));
        pairs.push(("device_type", device_type));
        pairs.push(("device_state", device_state));
        pairs.push(("num_assoc_devices", num));
        pairs.push(("assoc_devices_list", list));
        proof {
            reveal_strlit("status");
            reveal_strlit("ieee_addr");
            reveal_strlit("short_addr");
            reveal_strlit("device_type");
            reveal_strlit("device_state");
            reveal_strlit("num_assoc_devices");
            reveal_strlit("assoc_devices_list");
            assert("status"@.len() == 6);
            assert("ieee_addr"@.len() == 9);
            assert("short_addr"@.len() == 10);
            assert("device_type"@.len() == 11);
            assert("device_state"@.len() == 12);
            assert("num_assoc_devices"@.len() == 17);
            assert("assoc_devices_list"@.len() == 18);
            assert forall|a: int, b: int|
                0 <= a < b < pairs@.len() implies pairs@[a].0@ != pairs@[b].0@ by {
                reveal_strlit("status");
                reveal_strlit("ieee_addr");
                reveal_strlit("short_addr");
                reveal_strlit("device_type");
                reveal_strlit("device_state");
                reveal_strlit("num_assoc_devices");
                reveal_strlit("assoc_devices_list");
                if a == 0 && b == 1 {
                    assert("status"@ != "ieee_addr"@);
                }
                if a == 0 && b == 2 {
                    assert("status"@ != "short_addr"@);
                }
                if a == 0 && b == 3 {
                    assert("status"@ != "device_type"@);
                }
                if a == 0 && b == 4 {
                    assert("status"@ != "device_state"@);
                }
                if a == 0 && b == 5 {
                    assert("status"@ != "num_assoc_devices"@);
                }
                if a == 0 && b == 6 {
                    assert("status"@ != "assoc_devices_list"@);
                }
                if a == 1 && b == 2 {
                    assert("ieee_addr"@ != "short_addr"@);
                }
                if a == 1 && b == 3 {
                    assert("ieee_addr"@ != "device_type"@);
                }
                if a == 1 && b == 4 {
                    assert("ieee_addr"@ != "device_state"@);
                }
                if a == 1 && b == 5 {
                    assert("ieee_addr"@ != "num_assoc_devices"@);
                }
                if a == 1 && b == 6 {
                    assert("ieee_addr"@ != "assoc_devices_list"@);
                }
                if a == 2 && b == 3 {
                    assert("short_addr"@ != "device_type"@);
                }
                if a == 2 && b == 4 {
                    assert("short_addr"@ != "device_state"@);
                }
                if a == 2 && b == 5 {
                    assert("short_addr"@ != "num_assoc_devices"@);
                }
                if a == 2 && b == 6 {
                    assert("short_addr"@ != "assoc_devices_list"@);
                }
                if a == 3 && b == 4 {
                    assert("device_type"@ != "device_state"@);
                }
                if a == 3 && b == 5 {
                    assert("device_type"@ != "num_assoc_devices"@);
                }
                if a == 3 && b == 6 {
                    assert("device_type"@ != "assoc_devices_list"@);
                }
                if a == 4 && b == 5 {
                    assert("device_state"@ != "num_assoc_devices"@);
                }
                if a == 4 && b == 6 {
                    assert("device_state"@ != "assoc_devices_list"@);
                }
                if a == 5 && b == 6 {
                    assert("num_assoc_devices"@ != "assoc_devices_list"@);
                }
            }
        }
        let m = pairs_to_map(pairs);
        proof {
            let fields = spec_read_device_info(old(reader).data@)->Ok_0;
            assert(fields[6].1 matches ParameterValueView::ListU16(l) && l =~= Seq::new(
                (n as u8) as nat,
                |j: int| le16_at(old(reader).data@, 14 + 2 * j) as u16,
            ));
        }
        Ok(m)
    }
}

/// The images of a run of named parameter values.
pub open spec fn pairs_view(s: Seq<(&'static str, ParameterValue)>) -> Seq<
    (&'static str, ParameterValueView),
> {
    s.map_values(|p: (&'static str, ParameterValue)| (p.0, p.1@))
}

} // verus!

verus! {

// ---------------------------------------------------------------------
// The catalog itself: one descriptor per supported opcode.
// ---------------------------------------------------------------------

/// The `reset_req` descriptor as mathematics.
pub open spec fn spec_cmd_reset_req() -> CommandView {
    CommandView {
        name: "reset_req"@,
        id: 0,
        command_type: MessageType::AREQ,
        request: Some(seq![("type", ParameterType::U8)]),
        response: None,
    }
}

/// The `ping` descriptor as mathematics.
pub open spec fn spec_cmd_ping() -> CommandView {
    CommandView {
        name: "ping"@,
        id: 1,
        command_type: MessageType::SREQ,
        request: None,
        response: Some(seq![("capabilities", ParameterType::U16)]),
    }
}

/// The `version` descriptor as mathematics.
pub open spec fn spec_cmd_version() -> CommandView {
    CommandView {
        name: "version"@,
        id: 2,
        command_type: MessageType::SREQ,
        request: None,
        response: Some(seq![("transportrev", ParameterType::U8), ("product", ParameterType::U8), ("majorrel", ParameterType::U8), ("minorrel", ParameterType::U8), ("maintrel", ParameterType::U8), ("revision", ParameterType::U32)]),
    }
}

/// The `osal_nv_read` descriptor as mathematics.
pub open spec fn spec_cmd_osal_nv_read() -> CommandView {
    CommandView {
        name: "osal_nv_read"@,
        id: 8,
        command_type: MessageType::SREQ,
        request: Some(seq![("id", ParameterType::U16), ("offset", ParameterType::U16)]),
        response: Some(seq![("status", ParameterType::U8), ("len", ParameterType::U8), ("value", ParameterType::Buffer)]),
    }
}

/// The `stack_tune` descriptor as mathematics.
pub open spec fn spec_cmd_stack_tune() -> CommandView {
    CommandView {
        name: "stack_tune"@,
        id: 15,
        command_type: MessageType::SREQ,
        request: Some(seq![("operation", ParameterType::U8), ("value", ParameterType::I8)]),
        response: Some(seq![("value", ParameterType::U8)]),
    }
}

/// The `osal_nv_length` descriptor as mathematics.
pub open spec fn spec_cmd_osal_nv_length() -> CommandView {
    CommandView {
        name: "osal_nv_length"@,
        id: 19,
        command_type: MessageType::SREQ,
        request: Some(seq![("id", ParameterType::U16)]),
        response: Some(seq![("length", ParameterType::U16)]),
    }
}

/// The `osal_nv_read_ext` descriptor as mathematics.
pub open spec fn spec_cmd_osal_nv_read_ext() -> CommandView {
    CommandView {
        name: "osal_nv_read_ext"@,
        id: 28,
        command_type: MessageType::SREQ,
        request: Some(seq![("id", ParameterType::U16), ("offset", ParameterType::U16)]),
        response: Some(seq![("status", ParameterType::U8), ("len", ParameterType::U8), ("value", ParameterType::Buffer)]),
    }
}

/// The `osal_nv_write` descriptor as mathematics.
pub open spec fn spec_cmd_osal_nv_write() -> CommandView {
    CommandView {
        name: "osal_nv_write"@,
        id: 29,
        command_type: MessageType::SREQ,
        request: Some(seq![("id", ParameterType::U16), ("offset", ParameterType::U16), ("len", ParameterType::U16), ("value", ParameterType::Buffer)]),
        response: Some(seq![("status", ParameterType::U8)]),
    }
}

/// The `management_permit_join_request` descriptor as mathematics.
pub open spec fn spec_cmd_management_permit_join_request() -> CommandView {
    CommandView {
        name: "management_permit_join_request"@,
        id: 54,
        command_type: MessageType::SREQ,
        request: Some(seq![("address_mode", ParameterType::U16), ("destination_address", ParameterType::U16), ("duration", ParameterType::U8), ("tc_significance", ParameterType::U8)]),
        response: Some(seq![("status", ParameterType::U8)]),
    }
}

/// The `management_network_update_request` descriptor as mathematics.
pub open spec fn spec_cmd_management_network_update_request() -> CommandView {
    CommandView {
        name: "management_network_update_request"@,
        id: 55,
        command_type: MessageType::SREQ,
        request: Some(seq![("destination_address", ParameterType::U16), ("destination_address_mode", ParameterType::U16), ("channel_mask", ParameterType::U32), ("scan_duration", ParameterType::U8), ("scan_count", ParameterType::U8), ("network_manager_address", ParameterType::U16)]),
        response: Some(seq![("status", ParameterType::U8)]),
    }
}

/// The `startup_from_app` descriptor as mathematics.
pub open spec fn spec_cmd_startup_from_app() -> CommandView {
    CommandView {
        name: "startup_from_app"@,
        id: 64,
        command_type: MessageType::SREQ,
        request: Some(seq![("start_delay", ParameterType::U16), ("status", ParameterType::U8)]),
        response: Some(seq![("status", ParameterType::U8)]),
    }
}

/// The `exit_route_disc` descriptor as mathematics.
pub open spec fn spec_cmd_exit_route_disc() -> CommandView {
    CommandView {
        name: "exit_route_disc"@,
        id: 69,
        command_type: MessageType::SREQ,
        request: Some(seq![("destination_address", ParameterType::U16), ("options", ParameterType::U8), ("radius", ParameterType::U8)]),
        response: Some(seq![("status", ParameterType::U8)]),
    }
}

/// The `state_changed_ind` descriptor as mathematics.
pub open spec fn spec_cmd_state_changed_ind() -> CommandView {
    CommandView {
        name: "state_changed_ind"@,
        id: 192,
        command_type: MessageType::AREQ,
        request: Some(seq![("state", ParameterType::U8)]),
        response: None,
    }
}

/// The `tc_device_index` descriptor as mathematics.
pub open spec fn spec_cmd_tc_device_index() -> CommandView {
    CommandView {
        name: "tc_device_index"@,
        id: 202,
        command_type: MessageType::AREQ,
        request: Some(seq![("network_address", ParameterType::U16), ("extended_address", ParameterType::IeeeAddress), ("parent_address", ParameterType::U16)]),
        response: None,
    }
}

/// The `get_device_info` descriptor as mathematics.
pub open spec fn spec_cmd_get_device_info() -> CommandView {
    CommandView {
        name: "get_device_info"@,
        id: 0,
        command_type: MessageType::SREQ,
        request: None,
        response: Some(seq![("status", ParameterType::U8), ("ieee_addr", ParameterType::IeeeAddress), ("short_addr", ParameterType::U16), ("device_type", ParameterType::U8), ("device_state", ParameterType::U8), ("num_assoc_devices", ParameterType::U8), ("assoc_devices_list", ParameterType::ListU16(None))]),
    }
}

/// The `led_control` descriptor as mathematics.
pub open spec fn spec_cmd_led_control() -> CommandView {
    CommandView {
        name: "led_control"@,
        id: 10,
        command_type: MessageType::SREQ,
        request: Some(seq![("led_id", ParameterType::U8), ("mode", ParameterType::U8)]),
        response: Some(seq![("status", ParameterType::U8)]),
    }
}

/// Builds the `reset_req` descriptor.
fn cmd_reset_req() -> (c: Command)
    ensures
        c@ == spec_cmd_reset_req(),
        c@.wf(),
{
    let mut request: Schema = Vec::new();
    request.push(("type", ParameterType::U8));
    let c = Command {
        name: "reset_req",
        id: 0,
        command_type: MessageType::AREQ,
        request: Some(request),
        response: None,
    };
    proof {
        assert(c@.request->Some_0 =~= spec_cmd_reset_req().request->Some_0);
    }
    c
}

/// Builds the `ping` descriptor.
fn cmd_ping() -> (c: Command)
    ensures
        c@ == spec_cmd_ping(),
        c@.wf(),
{
    let mut response: Schema = Vec::new();
    response.push(("capabilities", ParameterType::U16));
    let c = Command {
        name: "ping",
        id: 1,
        command_type: MessageType::SREQ,
        request: None,
        response: Some(response),
    };
    proof {
        assert(c@.response->Some_0 =~= spec_cmd_ping().response->Some_0);
    }
    c
}

/// Builds the `version` descriptor.
fn cmd_version() -> (c: Command)
    ensures
        c@ == spec_cmd_version(),
        c@.wf(),
{
    let mut response: Schema = Vec::new();
    response.push(("transportrev", ParameterType::U8));
    response.push(("product", ParameterType::U8));
    response.push(("majorrel", ParameterType::U8));
    response.push(("minorrel", ParameterType::U8));
    response.push(("maintrel", ParameterType::U8));
    response.push(("revision", ParameterType::U32));
    let c = Command {
        name: "version",
        id: 2,
        command_type: MessageType::SREQ,
        request: None,
        response: Some(response),
    };
    proof {
        assert(c@.response->Some_0 =~= spec_cmd_version().response->Some_0);
        reveal_strlit("transportrev");
        reveal_strlit("product");
        reveal_strlit("majorrel");
        reveal_strlit("minorrel");
        reveal_strlit("maintrel");
        reveal_strlit("revision");
        assert("transportrev"@.len() == 12);
        assert("product"@.len() == 7);
        assert("majorrel"@.len() == 8);
        assert("minorrel"@.len() == 8);
        assert("maintrel"@.len() == 8);
        assert("revision"@.len() == 8);
        assert("majorrel"@[0] == 'm' && "majorrel"@[1] == 'a' && "majorrel"@[2] == 'j');
        assert("minorrel"@[0] == 'm' && "minorrel"@[1] == 'i');
        assert("maintrel"@[0] == 'm' && "maintrel"@[1] == 'a' && "maintrel"@[2] == 'i');
        assert("revision"@[0] == 'r');
        assert forall|a: int, b: int|
            0 <= a < b < c@.response->Some_0.len() implies c@.response->Some_0[a].0@
            != c@.response->Some_0[b].0@ by {
            if a == 0 && b == 1 {
                assert("transportrev"@ != "product"@);
            }
            if a == 0 && b == 2 {
                assert("transportrev"@ != "majorrel"@);
            }
            if a == 0 && b == 3 {
                assert("transportrev"@ != "minorrel"@);
            }
            if a == 0 && b == 4 {
                assert("transportrev"@ != "maintrel"@);
            }
            if a == 0 && b == 5 {
                assert("transportrev"@ != "revision"@);
            }
            if a == 1 && b == 2 {
                assert("product"@ != "majorrel"@);
            }
            if a == 1 && b == 3 {
                assert("product"@ != "minorrel"@);
            }
            if a == 1 && b == 4 {
                assert("product"@ != "maintrel"@);
            }
            if a == 1 && b == 5 {
                assert("product"@ != "revision"@);
            }
            if a == 2 && b == 3 {
                assert("majorrel"@ != "minorrel"@);
            }
            if a == 2 && b == 4 {
                assert("majorrel"@ != "maintrel"@);
            }
            if a == 2 && b == 5 {
                assert("majorrel"@ != "revision"@);
            }
            if a == 3 && b == 4 {
                assert("minorrel"@ != "maintrel"@);
            }
            if a == 3 && b == 5 {
                assert("minorrel"@ != "revision"@);
            }
            if a == 4 && b == 5 {
                assert("maintrel"@ != "revision"@);
            }
        }
    }
    c
}

/// Builds the `osal_nv_read` descriptor.
fn cmd_osal_nv_read() -> (c: Command)
    ensures
        c@ == spec_cmd_osal_nv_read(),
        c@.wf(),
{
    let mut request: Schema = Vec::new();
    request.push(("id", ParameterType::U16));
    request.push(("offset", ParameterType::U16));
    let mut response: Schema = Vec::new();
    response.push(("status", ParameterType::U8));
    response.push(("len", ParameterType::U8));
    response.push(("value", ParameterType::Buffer));
    let c = Command {
        name: "osal_nv_read",
        id: 8,
        command_type: MessageType::SREQ,
        request: Some(request),
        response: Some(response),
    };
    proof {
        assert(c@.request->Some_0 =~= spec_cmd_osal_nv_read().request->Some_0);
        reveal_strlit("id");
        reveal_strlit("offset");
        assert("id"@.len() == 2);
        assert("offset"@.len() == 6);
        assert forall|a: int, b: int|
            0 <= a < b < c@.request->Some_0.len() implies c@.request->Some_0[a].0@
            != c@.request->Some_0[b].0@ by {
            if a == 0 && b == 1 {
                assert("id"@ != "offset"@);
            }
        }
        assert(c@.response->Some_0 =~= spec_cmd_osal_nv_read().response->Some_0);
        reveal_strlit("status");
        reveal_strlit("len");
        reveal_strlit("value");
        assert("status"@.len() == 6);
        assert("len"@.len() == 3);
        assert("value"@.len() == 5);
        assert forall|a: int, b: int|
            0 <= a < b < c@.response->Some_0.len() implies c@.response->Some_0[a].0@
            != c@.response->Some_0[b].0@ by {
            if a == 0 && b == 1 {
                assert("status"@ != "len"@);
            }
            if a == 0 && b == 2 {
                assert("status"@ != "value"@);
            }
            if a == 1 && b == 2 {
                assert("len"@ != "value"@);
            }
        }
    }
    c
}

/// Builds the `stack_tune` descriptor.
fn cmd_stack_tune() -> (c: Command)
    ensures
        c@ == spec_cmd_stack_tune(),
        c@.wf(),
{
    let mut request: Schema = Vec::new();
    request.push(("operation", ParameterType::U8));
    request.push(("value", ParameterType::I8));
    let mut response: Schema = Vec::new();
    response.push(("value", ParameterType::U8));
    let c = Command {
        name: "stack_tune",
        id: 15,
        command_type: MessageType::SREQ,
        request: Some(request),
        response: Some(response),
    };
    proof {
        assert(c@.request->Some_0 =~= spec_cmd_stack_tune().request->Some_0);
        reveal_strlit("operation");
        reveal_strlit("value");
        assert("operation"@.len() == 9);
        assert("value"@.len() == 5);
        assert forall|a: int, b: int|
            0 <= a < b < c@.request->Some_0.len() implies c@.request->Some_0[a].0@
            != c@.request->Some_0[b].0@ by {
            if a == 0 && b == 1 {
                assert("operation"@ != "value"@);
            }
        }
        assert(c@.response->Some_0 =~= spec_cmd_stack_tune().response->Some_0);
    }
    c
}

/// Builds the `osal_nv_length` descriptor.
fn cmd_osal_nv_length() -> (c: Command)
    ensures
        c@ == spec_cmd_osal_nv_length(),
        c@.wf(),
{
    let mut request: Schema = Vec::new();
    request.push(("id", ParameterType::U16));
    let mut response: Schema = Vec::new();
    response.push(("length", ParameterType::U16));
    let c = Command {
        name: "osal_nv_length",
        id: 19,
        command_type: MessageType::SREQ,
        request: Some(request),
        response: Some(response),
    };
    proof {
        assert(c@.request->Some_0 =~= spec_cmd_osal_nv_length().request->Some_0);
        assert(c@.response->Some_0 =~= spec_cmd_osal_nv_length().response->Some_0);
    }
    c
}

/// Builds the `osal_nv_read_ext` descriptor.
fn cmd_osal_nv_read_ext() -> (c: Command)
    ensures
        c@ == spec_cmd_osal_nv_read_ext(),
        c@.wf(),
{
    let mut request: Schema = Vec::new();
    request.push(("id", ParameterType::U16));
    request.push(("offset", ParameterType::U16));
    let mut response: Schema = Vec::new();
    response.push(("status", ParameterType::U8));
    response.push(("len", ParameterType::U8));
    response.push(("value", ParameterType::Buffer));
    let c = Command {
        name: "osal_nv_read_ext",
        id: 28,
        command_type: MessageType::SREQ,
        request: Some(request),
        response: Some(response),
    };
    proof {
        assert(c@.request->Some_0 =~= spec_cmd_osal_nv_read_ext().request->Some_0);
        reveal_strlit("id");
        reveal_strlit("offset");
        assert("id"@.len() == 2);
        assert("offset"@.len() == 6);
        assert forall|a: int, b: int|
            0 <= a < b < c@.request->Some_0.len() implies c@.request->Some_0[a].0@
            != c@.request->Some_0[b].0@ by {
            if a == 0 && b == 1 {
                assert("id"@ != "offset"@);
            }
        }
        assert(c@.response->Some_0 =~= spec_cmd_osal_nv_read_ext().response->Some_0);
        reveal_strlit("status");
        reveal_strlit("len");
        reveal_strlit("value");
        assert("status"@.len() == 6);
        assert("len"@.len() == 3);
        assert("value"@.len() == 5);
        assert forall|a: int, b: int|
            0 <= a < b < c@.response->Some_0.len() implies c@.response->Some_0[a].0@
            != c@.response->Some_0[b].0@ by {
            if a == 0 && b == 1 {
                assert("status"@ != "len"@);
            }
            if a == 0 && b == 2 {
                assert("status"@ != "value"@);
            }
            if a == 1 && b == 2 {
                assert("len"@ != "value"@);
            }
        }
    }
    c
}

/// Builds the `osal_nv_write` descriptor.
fn cmd_osal_nv_write() -> (c: Command)
    ensures
        c@ == spec_cmd_osal_nv_write(),
        c@.wf(),
{
    let mut request: Schema = Vec::new();
    request.push(("id", ParameterType::U16));
    request.push(("offset", ParameterType::U16));
    request.push(("len", ParameterType::U16));
    request.push(("value", ParameterType::Buffer));
    let mut response: Schema = Vec::new();
    response.push(("status", ParameterType::U8));
    let c = Command {
        name: "osal_nv_write",
        id: 29,
        command_type: MessageType::SREQ,
        request: Some(request),
        response: Some(response),
    };
    proof {
        assert(c@.request->Some_0 =~= spec_cmd_osal_nv_write().request->Some_0);
        reveal_strlit("id");
        reveal_strlit("offset");
        reveal_strlit("len");
        reveal_strlit("value");
        assert("id"@.len() == 2);
        assert("offset"@.len() == 6);
        assert("len"@.len() == 3);
        assert("value"@.len() == 5);
        assert forall|a: int, b: int|
            0 <= a < b < c@.request->Some_0.len() implies c@.request->Some_0[a].0@
            != c@.request->Some_0[b].0@ by {
            if a == 0 && b == 1 {
                assert("id"@ != "offset"@);
            }
            if a == 0 && b == 2 {
                assert("id"@ != "len"@);
            }
            if a == 0 && b == 3 {
                assert("id"@ != "value"@);
            }
            if a == 1 && b == 2 {
                assert("offset"@ != "len"@);
            }
            if a == 1 && b == 3 {
                assert("offset"@ != "value"@);
            }
            if a == 2 && b == 3 {
                assert("len"@ != "value"@);
            }
        }
        assert(c@.response->Some_0 =~= spec_cmd_osal_nv_write().response->Some_0);
    }
    c
}

/// Builds the `management_permit_join_request` descriptor.
fn cmd_management_permit_join_request() -> (c: Command)
    ensures
        c@ == spec_cmd_management_permit_join_request(),
        c@.wf(),
{
    let mut request: Schema = Vec::new();
    request.push(("address_mode", ParameterType::U16));
    request.push(("destination_address", ParameterType::U16));
    request.push(("duration", ParameterType::U8));
    request.push(("tc_significance", ParameterType::U8));
    let mut response: Schema = Vec::new();
    response.push(("status", ParameterType::U8));
    let c = Command {
        name: "management_permit_join_request",
        id: 54,
        command_type: MessageType::SREQ,
        request: Some(request),
        response: Some(response),
    };
    proof {
        assert(c@.request->Some_0 =~= spec_cmd_management_permit_join_request().request->Some_0);
        reveal_strlit("address_mode");
        reveal_strlit("destination_address");
        reveal_strlit("duration");
        reveal_strlit("tc_significance");
        assert("address_mode"@.len() == 12);
        assert("destination_address"@.len() == 19);
        assert("duration"@.len() == 8);
        assert("tc_significance"@.len() == 15);
        assert forall|a: int, b: int|
            0 <= a < b < c@.request->Some_0.len() implies c@.request->Some_0[a].0@
            != c@.request->Some_0[b].0@ by {
            if a == 0 && b == 1 {
                assert("address_mode"@ != "destination_address"@);
            }
            if a == 0 && b == 2 {
                assert("address_mode"@ != "duration"@);
            }
            if a == 0 && b == 3 {
                assert("address_mode"@ != "tc_significance"@);
            }
            if a == 1 && b == 2 {
                assert("destination_address"@ != "duration"@);
            }
            if a == 1 && b == 3 {
                assert("destination_address"@ != "tc_significance"@);
            }
            if a == 2 && b == 3 {
                assert("duration"@ != "tc_significance"@);
            }
        }
        assert(c@.response->Some_0 =~= spec_cmd_management_permit_join_request().response->Some_0);
    }
    c
}

/// Builds the `management_network_update_request` descriptor.
fn cmd_management_network_update_request() -> (c: Command)
    ensures
        c@ == spec_cmd_management_network_update_request(),
        c@.wf(),
{
    let mut request: Schema = Vec::new();
    request.push(("destination_address", ParameterType::U16));
    request.push(("destination_address_mode", ParameterType::U16));
    request.push(("channel_mask", ParameterType::U32));
    request.push(("scan_duration", ParameterType::U8));
    request.push(("scan_count", ParameterType::U8));
    request.push(("network_manager_address", ParameterType::U16));
    let mut response: Schema = Vec::new();
    response.push(("status", ParameterType::U8));
    let c = Command {
        name: "management_network_update_request",
        id: 55,
        command_type: MessageType::SREQ,
        request: Some(request),
        response: Some(response),
    };
    proof {
        assert(c@.request->Some_0 =~= spec_cmd_management_network_update_request().request->Some_0);
        reveal_strlit("destination_address");
        reveal_strlit("destination_address_mode");
        reveal_strlit("channel_mask");
        reveal_strlit("scan_duration");
        reveal_strlit("scan_count");
        reveal_strlit("network_manager_address");
        assert("destination_address"@.len() == 19);
        assert("destination_address_mode"@.len() == 24);
        assert("channel_mask"@.len() == 12);
        assert("scan_duration"@.len() == 13);
        assert("scan_count"@.len() == 10);
        assert("network_manager_address"@.len() == 23);
        assert forall|a: int, b: int|
            0 <= a < b < c@.request->Some_0.len() implies c@.request->Some_0[a].0@
            != c@.request->Some_0[b].0@ by {
            if a == 0 && b == 1 {
                assert("destination_address"@ != "destination_address_mode"@);
            }
            if a == 0 && b == 2 {
                assert("destination_address"@ != "channel_mask"@);
            }
            if a == 0 && b == 3 {
                assert("destination_address"@ != "scan_duration"@);
            }
            if a == 0 && b == 4 {
                assert("destination_address"@ != "scan_count"@);
            }
            if a == 0 && b == 5 {
                assert("destination_address"@ != "network_manager_address"@);
            }
            if a == 1 && b == 2 {
                assert("destination_address_mode"@ != "channel_mask"@);
            }
            if a == 1 && b == 3 {
                assert("destination_address_mode"@ != "scan_duration"@);
            }
            if a == 1 && b == 4 {
                assert("destination_address_mode"@ != "scan_count"@);
            }
            if a == 1 && b == 5 {
                assert("destination_address_mode"@ != "network_manager_address"@);
            }
            if a == 2 && b == 3 {
                assert("channel_mask"@ != "scan_duration"@);
            }
            if a == 2 && b == 4 {
                assert("channel_mask"@ != "scan_count"@);
            }
            if a == 2 && b == 5 {
                assert("channel_mask"@ != "network_manager_address"@);
            }
            if a == 3 && b == 4 {
                assert("scan_duration"@ != "scan_count"@);
            }
            if a == 3 && b == 5 {
                assert("scan_duration"@ != "network_manager_address"@);
            }
            if a == 4 && b == 5 {
                assert("scan_count"@ != "network_manager_address"@);
            }
        }
        assert(c@.response->Some_0 =~= spec_cmd_management_network_update_request().response->Some_0);
    }
    c
}

/// Builds the `startup_from_app` descriptor.
fn cmd_startup_from_app() -> (c: Command)
    ensures
        c@ == spec_cmd_startup_from_app(),
        c@.wf(),
{
    let mut request: Schema = Vec::new();
    request.push(("start_delay", ParameterType::U16));
    request.push(("status", ParameterType::U8));
    let mut response: Schema = Vec::new();
    response.push(("status", ParameterType::U8));
    let c = Command {
        name: "startup_from_app",
        id: 64,
        command_type: MessageType::SREQ,
        request: Some(request),
        response: Some(response),
    };
    proof {
        assert(c@.request->Some_0 =~= spec_cmd_startup_from_app().request->Some_0);
        reveal_strlit("start_delay");
        reveal_strlit("status");
        assert("start_delay"@.len() == 11);
        assert("status"@.len() == 6);
        assert forall|a: int, b: int|
            0 <= a < b < c@.request->Some_0.len() implies c@.request->Some_0[a].0@
            != c@.request->Some_0[b].0@ by {
            if a == 0 && b == 1 {
                assert("start_delay"@ != "status"@);
            }
        }
        assert(c@.response->Some_0 =~= spec_cmd_startup_from_app().response->Some_0);
    }
    c
}

/// Builds the `exit_route_disc` descriptor.
fn cmd_exit_route_disc() -> (c: Command)
    ensures
        c@ == spec_cmd_exit_route_disc(),
        c@.wf(),
{
    let mut request: Schema = Vec::new();
    request.push(("destination_address", ParameterType::U16));
    request.push(("options", ParameterType::U8));
    request.push(("radius", ParameterType::U8));
    let mut response: Schema = Vec::new();
    response.push(("status", ParameterType::U8));
    let c = Command {
        name: "exit_route_disc",
        id: 69,
        command_type: MessageType::SREQ,
        request: Some(request),
        response: Some(response),
    };
    proof {
        assert(c@.request->Some_0 =~= spec_cmd_exit_route_disc().request->Some_0);
        reveal_strlit("destination_address");
        reveal_strlit("options");
        reveal_strlit("radius");
        assert("destination_address"@.len() == 19);
        assert("options"@.len() == 7);
        assert("radius"@.len() == 6);
        assert forall|a: int, b: int|
            0 <= a < b < c@.request->Some_0.len() implies c@.request->Some_0[a].0@
            != c@.request->Some_0[b].0@ by {
            if a == 0 && b == 1 {
                assert("destination_address"@ != "options"@);
            }
            if a == 0 && b == 2 {
                assert("destination_address"@ != "radius"@);
            }
            if a == 1 && b == 2 {
                assert("options"@ != "radius"@);
            }
        }
        assert(c@.response->Some_0 =~= spec_cmd_exit_route_disc().response->Some_0);
    }
    c
}

/// Builds the `state_changed_ind` descriptor.
fn cmd_state_changed_ind() -> (c: Command)
    ensures
        c@ == spec_cmd_state_changed_ind(),
        c@.wf(),
{
    let mut request: Schema = Vec::new();
    request.push(("state", ParameterType::U8));
    let c = Command {
        name: "state_changed_ind",
        id: 192,
        command_type: MessageType::AREQ,
        request: Some(request),
        response: None,
    };
    proof {
        assert(c@.request->Some_0 =~= spec_cmd_state_changed_ind().request->Some_0);
    }
    c
}

/// Builds the `tc_device_index` descriptor.
fn cmd_tc_device_index() -> (c: Command)
    ensures
        c@ == spec_cmd_tc_device_index(),
        c@.wf(),
{
    let mut request: Schema = Vec::new();
    request.push(("network_address", ParameterType::U16));
    request.push(("extended_address", ParameterType::IeeeAddress));
    request.push(("parent_address", ParameterType::U16));
    let c = Command {
        name: "tc_device_index",
        id: 202,
        command_type: MessageType::AREQ,
        request: Some(request),
        response: None,
    };
    proof {
        assert(c@.request->Some_0 =~= spec_cmd_tc_device_index().request->Some_0);
        reveal_strlit("network_address");
        reveal_strlit("extended_address");
        reveal_strlit("parent_address");
        assert("network_address"@.len() == 15);
        assert("extended_address"@.len() == 16);
        assert("parent_address"@.len() == 14);
        assert forall|a: int, b: int|
            0 <= a < b < c@.request->Some_0.len() implies c@.request->Some_0[a].0@
            != c@.request->Some_0[b].0@ by {
            if a == 0 && b == 1 {
                assert("network_address"@ != "extended_address"@);
            }
            if a == 0 && b == 2 {
                assert("network_address"@ != "parent_address"@);
            }
            if a == 1 && b == 2 {
                assert("extended_address"@ != "parent_address"@);
            }
        }
    }
    c
}

/// Builds the `get_device_info` descriptor.
fn cmd_get_device_info() -> (c: Command)
    ensures
        c@ == spec_cmd_get_device_info(),
        c@.wf(),
{
    let mut response: Schema = Vec::new();
    response.push(("status", ParameterType::U8));
    response.push(("ieee_addr", ParameterType::IeeeAddress));
    response.push(("short_addr", ParameterType::U16));
    response.push(("device_type", ParameterType::U8));
    response.push(("device_state", ParameterType::U8));
    response.push(("num_assoc_devices", ParameterType::U8));
    response.push(("assoc_devices_list", ParameterType::ListU16(None)));
    let c = Command {
        name: "get_device_info",
        id: 0,
        command_type: MessageType::SREQ,
        request: None,
        response: Some(response),
    };
    proof {
        assert(c@.response->Some_0 =~= spec_cmd_get_device_info().response->Some_0);
        reveal_strlit("status");
        reveal_strlit("ieee_addr");
        reveal_strlit("short_addr");
        reveal_strlit("device_type");
        reveal_strlit("device_state");
        reveal_strlit("num_assoc_devices");
        reveal_strlit("assoc_devices_list");
        assert("status"@.len() == 6);
        assert("ieee_addr"@.len() == 9);
        assert("short_addr"@.len() == 10);
        assert("device_type"@.len() == 11);
        assert("device_state"@.len() == 12);
        assert("num_assoc_devices"@.len() == 17);
        assert("assoc_devices_list"@.len() == 18);
        assert forall|a: int, b: int|
            0 <= a < b < c@.response->Some_0.len() implies c@.response->Some_0[a].0@
            != c@.response->Some_0[b].0@ by {
            if a == 0 && b == 1 {
                assert("status"@ != "ieee_addr"@);
            }
            if a == 0 && b == 2 {
                assert("status"@ != "short_addr"@);
            }
            if a == 0 && b == 3 {
                assert("status"@ != "device_type"@);
            }
            if a == 0 && b == 4 {
                assert("status"@ != "device_state"@);
            }
            if a == 0 && b == 5 {
                assert("status"@ != "num_assoc_devices"@);
            }
            if a == 0 && b == 6 {
                assert("status"@ != "assoc_devices_list"@);
            }
            if a == 1 && b == 2 {
                assert("ieee_addr"@ != "short_addr"@);
            }
            if a == 1 && b == 3 {
                assert("ieee_addr"@ != "device_type"@);
            }
            if a == 1 && b == 4 {
                assert("ieee_addr"@ != "device_state"@);
            }
            if a == 1 && b == 5 {
                assert("ieee_addr"@ != "num_assoc_devices"@);
            }
            if a == 1 && b == 6 {
                assert("ieee_addr"@ != "assoc_devices_list"@);
            }
            if a == 2 && b == 3 {
                assert("short_addr"@ != "device_type"@);
            }
            if a == 2 && b == 4 {
                assert("short_addr"@ != "device_state"@);
            }
            if a == 2 && b == 5 {
                assert("short_addr"@ != "num_assoc_devices"@);
            }
            if a == 2 && b == 6 {
                assert("short_addr"@ != "assoc_devices_list"@);
            }
            if a == 3 && b == 4 {
                assert("device_type"@ != "device_state"@);
            }
            if a == 3 && b == 5 {
                assert("device_type"@ != "num_assoc_devices"@);
            }
            if a == 3 && b == 6 {
                assert("device_type"@ != "assoc_devices_list"@);
            }
            if a == 4 && b == 5 {
                assert("device_state"@ != "num_assoc_devices"@);
            }
            if a == 4 && b == 6 {
                assert("device_state"@ != "assoc_devices_list"@);
            }
            if a == 5 && b == 6 {
                assert("num_assoc_devices"@ != "assoc_devices_list"@);
            }
        }
    }
    c
}

/// Builds the `led_control` descriptor.
fn cmd_led_control() -> (c: Command)
    ensures
        c@ == spec_cmd_led_control(),
        c@.wf(),
{
    let mut request: Schema = Vec::new();
    request.push(("led_id", ParameterType::U8));
    request.push(("mode", ParameterType::U8));
    let mut response: Schema = Vec::new();
    response.push(("status", ParameterType::U8));
    let c = Command {
        name: "led_control",
        id: 10,
        command_type: MessageType::SREQ,
        request: Some(request),
        response: Some(response),
    };
    proof {
        assert(c@.request->Some_0 =~= spec_cmd_led_control().request->Some_0);
        reveal_strlit("led_id");
        reveal_strlit("mode");
        assert("led_id"@.len() == 6);
        assert("mode"@.len() == 4);
        assert forall|a: int, b: int|
            0 <= a < b < c@.request->Some_0.len() implies c@.request->Some_0[a].0@
            != c@.request->Some_0[b].0@ by {
            if a == 0 && b == 1 {
                assert("led_id"@ != "mode"@);
            }
        }
        assert(c@.response->Some_0 =~= spec_cmd_led_control().response->Some_0);
    }
    c
}

/// The descriptor registered under a subsystem and name, if any.
pub open spec fn spec_command_by_name(subsystem: Subsystem, name: Seq<char>) -> Option<
    CommandView,
> {
    match subsystem {
        Subsystem::Sys => {
            if name == "reset_req"@ {
                Some(spec_cmd_reset_req())
            } else if name == "ping"@ {
                Some(spec_cmd_ping())
            } else if name == "version"@ {
                Some(spec_cmd_version())
            } else if name == "osal_nv_read"@ {
                Some(spec_cmd_osal_nv_read())
            } else if name == "stack_tune"@ {
                Some(spec_cmd_stack_tune())
            } else if name == "osal_nv_length"@ {
                Some(spec_cmd_osal_nv_length())
            } else if name == "osal_nv_read_ext"@ {
                Some(spec_cmd_osal_nv_read_ext())
            } else if name == "osal_nv_write"@ {
                Some(spec_cmd_osal_nv_write())
            } else {
                None
            }
        },
        Subsystem::Zdo => {
            if name == "management_permit_join_request"@ {
                Some(spec_cmd_management_permit_join_request())
            } else if name == "management_network_update_request"@ {
                Some(spec_cmd_management_network_update_request())
            } else if name == "startup_from_app"@ {
                Some(spec_cmd_startup_from_app())
            } else if name == "exit_route_disc"@ {
                Some(spec_cmd_exit_route_disc())
            } else if name == "state_changed_ind"@ {
                Some(spec_cmd_state_changed_ind())
            } else if name == "tc_device_index"@ {
                Some(spec_cmd_tc_device_index())
            } else {
                None
            }
        },
        Subsystem::Util => {
            if name == "get_device_info"@ {
                Some(spec_cmd_get_device_info())
            } else if name == "led_control"@ {
                Some(spec_cmd_led_control())
            } else {
                None
            }
        },
        _ => None,
    }
}

/// The descriptor registered under a subsystem and opcode, if any.
pub open spec fn spec_command_by_id(subsystem: Subsystem, id: u8) -> Option<CommandView> {
    match subsystem {
        Subsystem::Sys => {
            if id == 0 {
                Some(spec_cmd_reset_req())
            } else if id == 1 {
                Some(spec_cmd_ping())
            } else if id == 2 {
                Some(spec_cmd_version())
            } else if id == 8 {
                Some(spec_cmd_osal_nv_read())
            } else if id == 15 {
                Some(spec_cmd_stack_tune())
            } else if id == 19 {
                Some(spec_cmd_osal_nv_length())
            } else if id == 28 {
                Some(spec_cmd_osal_nv_read_ext())
            } else if id == 29 {
                Some(spec_cmd_osal_nv_write())
            } else {
                None
            }
        },
        Subsystem::Zdo => {
            if id == 54 {
                Some(spec_cmd_management_permit_join_request())
            } else if id == 55 {
                Some(spec_cmd_management_network_update_request())
            } else if id == 64 {
                Some(spec_cmd_startup_from_app())
            } else if id == 69 {
                Some(spec_cmd_exit_route_disc())
            } else if id == 192 {
                Some(spec_cmd_state_changed_ind())
            } else if id == 202 {
                Some(spec_cmd_tc_device_index())
            } else {
                None
            }
        },
        Subsystem::Util => {
            if id == 0 {
                Some(spec_cmd_get_device_info())
            } else if id == 10 {
                Some(spec_cmd_led_control())
            } else {
                None
            }
        },
        _ => None,
    }
}

/// Looks a command up by subsystem and stable name.
pub fn get_command_by_name(subsystem: &Subsystem, name: &str) -> (r: Option<Command>)
    ensures
        r matches Some(c) ==> spec_command_by_name(*subsystem, name@) == Some(c@) && c@.wf(),
        r is None ==> spec_command_by_name(*subsystem, name@) is None,
{
    match subsystem {
        Subsystem::Sys => {
            if str_eq(name, "reset_req") {
                Some(cmd_reset_req())
            } else if str_eq(name, "ping") {
                Some(cmd_ping())
            } else if str_eq(name, "version") {
                Some(cmd_version())
            } else if str_eq(name, "osal_nv_read") {
                Some(cmd_osal_nv_read())
            } else if str_eq(name, "stack_tune") {
                Some(cmd_stack_tune())
            } else if str_eq(name, "osal_nv_length") {
                Some(cmd_osal_nv_length())
            } else if str_eq(name, "osal_nv_read_ext") {
                Some(cmd_osal_nv_read_ext())
            } else if str_eq(name, "osal_nv_write") {
                Some(cmd_osal_nv_write())
            } else {
                None
            }
        },
        Subsystem::Zdo => {
            if str_eq(name, "management_permit_join_request") {
                Some(cmd_management_permit_join_request())
            } else if str_eq(name, "management_network_update_request") {
                Some(cmd_management_network_update_request())
            } else if str_eq(name, "startup_from_app") {
                Some(cmd_startup_from_app())
            } else if str_eq(name, "exit_route_disc") {
                Some(cmd_exit_route_disc())
            } else if str_eq(name, "state_changed_ind") {
                Some(cmd_state_changed_ind())
            } else if str_eq(name, "tc_device_index") {
                Some(cmd_tc_device_index())
            } else {
                None
            }
        },
        Subsystem::Util => {
            if str_eq(name, "get_device_info") {
                Some(cmd_get_device_info())
            } else if str_eq(name, "led_control") {
                Some(cmd_led_control())
            } else {
                None
            }
        },
        _ => None,
    }
}

/// Looks a command up by subsystem and opcode.
pub fn get_command_by_id(subsystem: &Subsystem, id: u8) -> (r: Option<Command>)
    ensures
        r matches Some(c) ==> spec_command_by_id(*subsystem, id) == Some(c@) && c@.wf(),
        r is None ==> spec_command_by_id(*subsystem, id) is None,
{
    match subsystem {
        Subsystem::Sys => {
            if id == 0 {
                Some(cmd_reset_req())
            } else if id == 1 {
                Some(cmd_ping())
            } else if id == 2 {
                Some(cmd_version())
            } else if id == 8 {
                Some(cmd_osal_nv_read())
            } else if id == 15 {
                Some(cmd_stack_tune())
            } else if id == 19 {
                Some(cmd_osal_nv_length())
            } else if id == 28 {
                Some(cmd_osal_nv_read_ext())
            } else if id == 29 {
                Some(cmd_osal_nv_write())
            } else {
                None
            }
        },
        Subsystem::Zdo => {
            if id == 54 {
                Some(cmd_management_permit_join_request())
            } else if id == 55 {
                Some(cmd_management_network_update_request())
            } else if id == 64 {
                Some(cmd_startup_from_app())
            } else if id == 69 {
                Some(cmd_exit_route_disc())
            } else if id == 192 {
                Some(cmd_state_changed_ind())
            } else if id == 202 {
                Some(cmd_tc_device_index())
            } else {
                None
            }
        },
        Subsystem::Util => {
            if id == 0 {
                Some(cmd_get_device_info())
            } else if id == 10 {
                Some(cmd_led_control())
            } else {
                None
            }
        },
        _ => None,
    }
}

} // verus!

verus! {

/// Every value stored in the map is well formed.
pub open spec fn map_values_wf(m: ParametersValueMap) -> bool {
    forall|i: int|
        0 <= i < m.slots@.len() ==> ((#[trigger] m.slots@[i]) matches Some(kv) ==> kv.1.wf())
}

/// A map holding exactly some decoded fields holds only well-formed
/// values.
pub proof fn lemma_map_matches_fields_values_wf(
    m: ParametersValueMap,
    fields: Seq<(&'static str, ParameterValueView)>,
)
    requires
        map_matches_fields(m, fields),
    ensures
        map_values_wf(m),
{
}

/// A lookup in a map of well-formed values gives a well-formed value.
pub proof fn lemma_map_get_wf(m: ParametersValueMap, key: Seq<char>)
    requires
        m.wf(),
        map_values_wf(m),
    ensures
        m.spec_get(key) matches Some(v) ==> v.wf(),
{
    lemma_first_key_idx(m.slots@, key);
}

} // verus!

verus! {

/// Filling with no parameters writes nothing.
pub proof fn lemma_spec_fill_nil(schema: Seq<(&'static str, ParameterType)>)
    ensures
        spec_fill(Seq::<(&'static str, ParameterValue)>::empty(), schema) == Ok::<
            Seq<u8>,
            ParameterError,
        >(Seq::<u8>::empty()),
{
}

/// One unfolding of `spec_fill`: the first parameter's bytes, then the
/// rest.
pub proof fn lemma_spec_fill_cons(
    params: Seq<(&'static str, ParameterValue)>,
    schema: Seq<(&'static str, ParameterType)>,
)
    requires
        params.len() > 0,
    ensures
        spec_fill(params, schema) == (match spec_assoc(schema, params[0].0@) {
            None => Err::<Seq<u8>, ParameterError>(ParameterError::NoCommandWithName),
            Some(t) => if params[0].1@.spec_matches_type(t) {
                match spec_fill(params.drop_first(), schema) {
                    Ok(rest) => Ok::<Seq<u8>, ParameterError>(params[0].1@.spec_bytes() + rest),
                    Err(e) => Err::<Seq<u8>, ParameterError>(e),
                }
            } else {
                Err::<Seq<u8>, ParameterError>(ParameterError::InvalidParameter)
            },
        }),
{
}

} // verus!

verus! {

/// Where `reset_req` stands in the catalog, and that its schemas are
/// well formed.
pub proof fn lemma_cmd_reset_req_facts()
    ensures
        spec_command_by_name(Subsystem::Sys, "reset_req"@) == Some(spec_cmd_reset_req()),
        spec_command_by_id(Subsystem::Sys, 0) == Some(spec_cmd_reset_req()),
        spec_cmd_reset_req().wf(),
{
    reveal_strlit("reset_req");
    assert("reset_req"@.len() == 9);
}

/// Where `ping` stands in the catalog, and that its schemas are
/// well formed.
pub proof fn lemma_cmd_ping_facts()
    ensures
        spec_command_by_name(Subsystem::Sys, "ping"@) == Some(spec_cmd_ping()),
        spec_command_by_id(Subsystem::Sys, 1) == Some(spec_cmd_ping()),
        spec_cmd_ping().wf(),
{
    reveal_strlit("ping");
    reveal_strlit("reset_req");
    assert("ping"@.len() == 4);
    assert("reset_req"@.len() == 9);
    assert("ping"@ != "reset_req"@);
}

/// Where `version` stands in the catalog, and that its schemas are
/// well formed.
pub proof fn lemma_cmd_version_facts()
    ensures
        spec_command_by_name(Subsystem::Sys, "version"@) == Some(spec_cmd_version()),
        spec_command_by_id(Subsystem::Sys, 2) == Some(spec_cmd_version()),
        spec_cmd_version().wf(),
{
    reveal_strlit("ping");
    reveal_strlit("reset_req");
    reveal_strlit("version");
    assert("ping"@.len() == 4);
    assert("reset_req"@.len() == 9);
    assert("version"@.len() == 7);
    assert("version"@ != "reset_req"@);
    assert("version"@ != "ping"@);
    reveal_strlit("maintrel");
    reveal_strlit("majorrel");
    reveal_strlit("minorrel");
    reveal_strlit("product");
    reveal_strlit("revision");
    reveal_strlit("transportrev");
    assert("maintrel"@.len() == 8);
    assert("majorrel"@.len() == 8);
    assert("minorrel"@.len() == 8);
    assert("product"@.len() == 7);
    assert("revision"@.len() == 8);
    assert("transportrev"@.len() == 12);
    assert("majorrel"@[1] == 'a');
    assert("minorrel"@[1] == 'i');
    assert("majorrel"@[2] == 'j');
    assert("maintrel"@[2] == 'i');
    assert("majorrel"@[0] == 'm');
    assert("revision"@[0] == 'r');
    assert("minorrel"@[1] == 'i');
    assert("maintrel"@[1] == 'a');
    assert("minorrel"@[0] == 'm');
    assert("revision"@[0] == 'r');
    assert("maintrel"@[0] == 'm');
    assert("revision"@[0] == 'r');
    assert forall|a: int, b: int|
        0 <= a < b < spec_cmd_version().response->Some_0.len() implies spec_cmd_version().response->Some_0[a].0@
        != spec_cmd_version().response->Some_0[b].0@ by {
        if a == 0 && b == 1 {
            assert("transportrev"@ != "product"@);
        }
        if a == 0 && b == 2 {
            assert("transportrev"@ != "majorrel"@);
        }
        if a == 0 && b == 3 {
            assert("transportrev"@ != "minorrel"@);
        }
        if a == 0 && b == 4 {
            assert("transportrev"@ != "maintrel"@);
        }
        if a == 0 && b == 5 {
            assert("transportrev"@ != "revision"@);
        }
        if a == 1 && b == 2 {
            assert("product"@ != "majorrel"@);
        }
        if a == 1 && b == 3 {
            assert("product"@ != "minorrel"@);
        }
        if a == 1 && b == 4 {
            assert("product"@ != "maintrel"@);
        }
        if a == 1 && b == 5 {
            assert("product"@ != "revision"@);
        }
        if a == 2 && b == 3 {
            assert("majorrel"@ != "minorrel"@);
        }
        if a == 2 && b == 4 {
            assert("majorrel"@ != "maintrel"@);
        }
        if a == 2 && b == 5 {
            assert("majorrel"@ != "revision"@);
        }
        if a == 3 && b == 4 {
            assert("minorrel"@ != "maintrel"@);
        }
        if a == 3 && b == 5 {
            assert("minorrel"@ != "revision"@);
        }
        if a == 4 && b == 5 {
            assert("maintrel"@ != "revision"@);
        }
    }
}

/// Where `osal_nv_read` stands in the catalog, and that its schemas are
/// well formed.
pub proof fn lemma_cmd_osal_nv_read_facts()
    ensures
        spec_command_by_name(Subsystem::Sys, "osal_nv_read"@) == Some(spec_cmd_osal_nv_read()),
        spec_command_by_id(Subsystem::Sys, 8) == Some(spec_cmd_osal_nv_read()),
        spec_cmd_osal_nv_read().wf(),
{
    reveal_strlit("osal_nv_read");
    reveal_strlit("ping");
    reveal_strlit("reset_req");
    reveal_strlit("version");
    assert("osal_nv_read"@.len() == 12);
    assert("ping"@.len() == 4);
    assert("reset_req"@.len() == 9);
    assert("version"@.len() == 7);
    assert("osal_nv_read"@ != "reset_req"@);
    assert("osal_nv_read"@ != "ping"@);
    assert("osal_nv_read"@ != "version"@);
    reveal_strlit("id");
    reveal_strlit("offset");
    assert("id"@.len() == 2);
    assert("offset"@.len() == 6);
    assert forall|a: int, b: int|
        0 <= a < b < spec_cmd_osal_nv_read().request->Some_0.len() implies spec_cmd_osal_nv_read().request->Some_0[a].0@
        != spec_cmd_osal_nv_read().request->Some_0[b].0@ by {
        if a == 0 && b == 1 {
            assert("id"@ != "offset"@);
        }
    }
    reveal_strlit("len");
    reveal_strlit("status");
    reveal_strlit("value");
    assert("len"@.len() == 3);
    assert("status"@.len() == 6);
    assert("value"@.len() == 5);
    assert forall|a: int, b: int|
        0 <= a < b < spec_cmd_osal_nv_read().response->Some_0.len() implies spec_cmd_osal_nv_read().response->Some_0[a].0@
        != spec_cmd_osal_nv_read().response->Some_0[b].0@ by {
        if a == 0 && b == 1 {
            assert("status"@ != "len"@);
        }
        if a == 0 && b == 2 {
            assert("status"@ != "value"@);
        }
        if a == 1 && b == 2 {
            assert("len"@ != "value"@);
        }
    }
}

/// Where `stack_tune` stands in the catalog, and that its schemas are
/// well formed.
pub proof fn lemma_cmd_stack_tune_facts()
    ensures
        spec_command_by_name(Subsystem::Sys, "stack_tune"@) == Some(spec_cmd_stack_tune()),
        spec_command_by_id(Subsystem::Sys, 15) == Some(spec_cmd_stack_tune()),
        spec_cmd_stack_tune().wf(),
{
    reveal_strlit("osal_nv_read");
    reveal_strlit("ping");
    reveal_strlit("reset_req");
    reveal_strlit("stack_tune");
    reveal_strlit("version");
    assert("osal_nv_read"@.len() == 12);
    assert("ping"@.len() == 4);
    assert("reset_req"@.len() == 9);
    assert("stack_tune"@.len() == 10);
    assert("version"@.len() == 7);
    assert("stack_tune"@ != "reset_req"@);
    assert("stack_tune"@ != "ping"@);
    assert("stack_tune"@ != "version"@);
    assert("stack_tune"@ != "osal_nv_read"@);
    reveal_strlit("operation");
    reveal_strlit("value");
    assert("operation"@.len() == 9);
    assert("value"@.len() == 5);
    assert forall|a: int, b: int|
        0 <= a < b < spec_cmd_stack_tune().request->Some_0.len() implies spec_cmd_stack_tune().request->Some_0[a].0@
        != spec_cmd_stack_tune().request->Some_0[b].0@ by {
        if a == 0 && b == 1 {
            assert("operation"@ != "value"@);
        }
    }
}

/// Where `osal_nv_length` stands in the catalog, and that its schemas are
/// well formed.
pub proof fn lemma_cmd_osal_nv_length_facts()
    ensures
        spec_command_by_name(Subsystem::Sys, "osal_nv_length"@) == Some(spec_cmd_osal_nv_length()),
        spec_command_by_id(Subsystem::Sys, 19) == Some(spec_cmd_osal_nv_length()),
        spec_cmd_osal_nv_length().wf(),
{
    reveal_strlit("osal_nv_length");
    reveal_strlit("osal_nv_read");
    reveal_strlit("ping");
    reveal_strlit("reset_req");
    reveal_strlit("stack_tune");
    reveal_strlit("version");
    assert("osal_nv_length"@.len() == 14);
    assert("osal_nv_read"@.len() == 12);
    assert("ping"@.len() == 4);
    assert("reset_req"@.len() == 9);
    assert("stack_tune"@.len() == 10);
    assert("version"@.len() == 7);
    assert("osal_nv_length"@ != "reset_req"@);
    assert("osal_nv_length"@ != "ping"@);
    assert("osal_nv_length"@ != "version"@);
    assert("osal_nv_length"@ != "osal_nv_read"@);
    assert("osal_nv_length"@ != "stack_tune"@);
}

/// Where `osal_nv_read_ext` stands in the catalog, and that its schemas are
/// well formed.
pub proof fn lemma_cmd_osal_nv_read_ext_facts()
    ensures
        spec_command_by_name(Subsystem::Sys, "osal_nv_read_ext"@) == Some(spec_cmd_osal_nv_read_ext()),
        spec_command_by_id(Subsystem::Sys, 28) == Some(spec_cmd_osal_nv_read_ext()),
        spec_cmd_osal_nv_read_ext().wf(),
{
    reveal_strlit("osal_nv_length");
    reveal_strlit("osal_nv_read");
    reveal_strlit("osal_nv_read_ext");
    reveal_strlit("ping");
    reveal_strlit("reset_req");
    reveal_strlit("stack_tune");
    reveal_strlit("version");
    assert("osal_nv_length"@.len() == 14);
    assert("osal_nv_read"@.len() == 12);
    assert("osal_nv_read_ext"@.len() == 16);
    assert("ping"@.len() == 4);
    assert("reset_req"@.len() == 9);
    assert("stack_tune"@.len() == 10);
    assert("version"@.len() == 7);
    assert("osal_nv_read_ext"@ != "reset_req"@);
    assert("osal_nv_read_ext"@ != "ping"@);
    assert("osal_nv_read_ext"@ != "version"@);
    assert("osal_nv_read_ext"@ != "osal_nv_read"@);
    assert("osal_nv_read_ext"@ != "stack_tune"@);
    assert("osal_nv_read_ext"@ != "osal_nv_length"@);
    reveal_strlit("id");
    reveal_strlit("offset");
    assert("id"@.len() == 2);
    assert("offset"@.len() == 6);
    assert forall|a: int, b: int|
        0 <= a < b < spec_cmd_osal_nv_read_ext().request->Some_0.len() implies spec_cmd_osal_nv_read_ext().request->Some_0[a].0@
        != spec_cmd_osal_nv_read_ext().request->Some_0[b].0@ by {
        if a == 0 && b == 1 {
            assert("id"@ != "offset"@);
        }
    }
    reveal_strlit("len");
    reveal_strlit("status");
    reveal_strlit("value");
    assert("len"@.len() == 3);
    assert("status"@.len() == 6);
    assert("value"@.len() == 5);
    assert forall|a: int, b: int|
        0 <= a < b < spec_cmd_osal_nv_read_ext().response->Some_0.len() implies spec_cmd_osal_nv_read_ext().response->Some_0[a].0@
        != spec_cmd_osal_nv_read_ext().response->Some_0[b].0@ by {
        if a == 0 && b == 1 {
            assert("status"@ != "len"@);
        }
        if a == 0 && b == 2 {
            assert("status"@ != "value"@);
        }
        if a == 1 && b == 2 {
            assert("len"@ != "value"@);
        }
    }
}

/// Where `osal_nv_write` stands in the catalog, and that its schemas are
/// well formed.
pub proof fn lemma_cmd_osal_nv_write_facts()
    ensures
        spec_command_by_name(Subsystem::Sys, "osal_nv_write"@) == Some(spec_cmd_osal_nv_write()),
        spec_command_by_id(Subsystem::Sys, 29) == Some(spec_cmd_osal_nv_write()),
        spec_cmd_osal_nv_write().wf(),
{
    reveal_strlit("osal_nv_length");
    reveal_strlit("osal_nv_read");
    reveal_strlit("osal_nv_read_ext");
    reveal_strlit("osal_nv_write");
    reveal_strlit("ping");
    reveal_strlit("reset_req");
    reveal_strlit("stack_tune");
    reveal_strlit("version");
    assert("osal_nv_length"@.len() == 14);
    assert("osal_nv_read"@.len() == 12);
    assert("osal_nv_read_ext"@.len() == 16);
    assert("osal_nv_write"@.len() == 13);
    assert("ping"@.len() == 4);
    assert("reset_req"@.len() == 9);
    assert("stack_tune"@.len() == 10);
    assert("version"@.len() == 7);
    assert("osal_nv_write"@ != "reset_req"@);
    assert("osal_nv_write"@ != "ping"@);
    assert("osal_nv_write"@ != "version"@);
    assert("osal_nv_write"@ != "osal_nv_read"@);
    assert("osal_nv_write"@ != "stack_tune"@);
    assert("osal_nv_write"@ != "osal_nv_length"@);
    assert("osal_nv_write"@ != "osal_nv_read_ext"@);
    reveal_strlit("id");
    reveal_strlit("len");
    reveal_strlit("offset");
    reveal_strlit("value");
    assert("id"@.len() == 2);
    assert("len"@.len() == 3);
    assert("offset"@.len() == 6);
    assert("value"@.len() == 5);
    assert forall|a: int, b: int|
        0 <= a < b < spec_cmd_osal_nv_write().request->Some_0.len() implies spec_cmd_osal_nv_write().request->Some_0[a].0@
        != spec_cmd_osal_nv_write().request->Some_0[b].0@ by {
        if a == 0 && b == 1 {
            assert("id"@ != "offset"@);
        }
        if a == 0 && b == 2 {
            assert("id"@ != "len"@);
        }
        if a == 0 && b == 3 {
            assert("id"@ != "value"@);
        }
        if a == 1 && b == 2 {
            assert("offset"@ != "len"@);
        }
        if a == 1 && b == 3 {
            assert("offset"@ != "value"@);
        }
        if a == 2 && b == 3 {
            assert("len"@ != "value"@);
        }
    }
}

/// Where `management_permit_join_request` stands in the catalog, and that its schemas are
/// well formed.
pub proof fn lemma_cmd_management_permit_join_request_facts()
    ensures
        spec_command_by_name(Subsystem::Zdo, "management_permit_join_request"@) == Some(spec_cmd_management_permit_join_request()),
        spec_command_by_id(Subsystem::Zdo, 54) == Some(spec_cmd_management_permit_join_request()),
        spec_cmd_management_permit_join_request().wf(),
{
    reveal_strlit("management_permit_join_request");
    assert("management_permit_join_request"@.len() == 30);
    reveal_strlit("address_mode");
    reveal_strlit("destination_address");
    reveal_strlit("duration");
    reveal_strlit("tc_significance");
    assert("address_mode"@.len() == 12);
    assert("destination_address"@.len() == 19);
    assert("duration"@.len() == 8);
    assert("tc_significance"@.len() == 15);
    assert forall|a: int, b: int|
        0 <= a < b < spec_cmd_management_permit_join_request().request->Some_0.len() implies spec_cmd_management_permit_join_request().request->Some_0[a].0@
        != spec_cmd_management_permit_join_request().request->Some_0[b].0@ by {
        if a == 0 && b == 1 {
            assert("address_mode"@ != "destination_address"@);
        }
        if a == 0 && b == 2 {
            assert("address_mode"@ != "duration"@);
        }
        if a == 0 && b == 3 {
            assert("address_mode"@ != "tc_significance"@);
        }
        if a == 1 && b == 2 {
            assert("destination_address"@ != "duration"@);
        }
        if a == 1 && b == 3 {
            assert("destination_address"@ != "tc_significance"@);
        }
        if a == 2 && b == 3 {
            assert("duration"@ != "tc_significance"@);
        }
    }
}

/// Where `management_network_update_request` stands in the catalog, and that its schemas are
/// well formed.
pub proof fn lemma_cmd_management_network_update_request_facts()
    ensures
        spec_command_by_name(Subsystem::Zdo, "management_network_update_request"@) == Some(spec_cmd_management_network_update_request()),
        spec_command_by_id(Subsystem::Zdo, 55) == Some(spec_cmd_management_network_update_request()),
        spec_cmd_management_network_update_request().wf(),
{
    reveal_strlit("management_network_update_request");
    reveal_strlit("management_permit_join_request");
    assert("management_network_update_request"@.len() == 33);
    assert("management_permit_join_request"@.len() == 30);
    assert("management_network_update_request"@ != "management_permit_join_request"@);
    reveal_strlit("channel_mask");
    reveal_strlit("destination_address");
    reveal_strlit("destination_address_mode");
    reveal_strlit("network_manager_address");
    reveal_strlit("scan_count");
    reveal_strlit("scan_duration");
    assert("channel_mask"@.len() == 12);
    assert("destination_address"@.len() == 19);
    assert("destination_address_mode"@.len() == 24);
    assert("network_manager_address"@.len() == 23);
    assert("scan_count"@.len() == 10);
    assert("scan_duration"@.len() == 13);
    assert forall|a: int, b: int|
        0 <= a < b < spec_cmd_management_network_update_request().request->Some_0.len() implies spec_cmd_management_network_update_request().request->Some_0[a].0@
        != spec_cmd_management_network_update_request().request->Some_0[b].0@ by {
        if a == 0 && b == 1 {
            assert("destination_address"@ != "destination_address_mode"@);
        }
        if a == 0 && b == 2 {
            assert("destination_address"@ != "channel_mask"@);
        }
        if a == 0 && b == 3 {
            assert("destination_address"@ != "scan_duration"@);
        }
        if a == 0 && b == 4 {
            assert("destination_address"@ != "scan_count"@);
        }
        if a == 0 && b == 5 {
            assert("destination_address"@ != "network_manager_address"@);
        }
        if a == 1 && b == 2 {
            assert("destination_address_mode"@ != "channel_mask"@);
        }
        if a == 1 && b == 3 {
            assert("destination_address_mode"@ != "scan_duration"@);
        }
        if a == 1 && b == 4 {
            assert("destination_address_mode"@ != "scan_count"@);
        }
        if a == 1 && b == 5 {
            assert("destination_address_mode"@ != "network_manager_address"@);
        }
        if a == 2 && b == 3 {
            assert("channel_mask"@ != "scan_duration"@);
        }
        if a == 2 && b == 4 {
            assert("channel_mask"@ != "scan_count"@);
        }
        if a == 2 && b == 5 {
            assert("channel_mask"@ != "network_manager_address"@);
        }
        if a == 3 && b == 4 {
            assert("scan_duration"@ != "scan_count"@);
        }
        if a == 3 && b == 5 {
            assert("scan_duration"@ != "network_manager_address"@);
        }
        if a == 4 && b == 5 {
            assert("scan_count"@ != "network_manager_address"@);
        }
    }
}

/// Where `startup_from_app` stands in the catalog, and that its schemas are
/// well formed.
pub proof fn lemma_cmd_startup_from_app_facts()
    ensures
        spec_command_by_name(Subsystem::Zdo, "startup_from_app"@) == Some(spec_cmd_startup_from_app()),
        spec_command_by_id(Subsystem::Zdo, 64) == Some(spec_cmd_startup_from_app()),
        spec_cmd_startup_from_app().wf(),
{
    reveal_strlit("management_network_update_request");
    reveal_strlit("management_permit_join_request");
    reveal_strlit("startup_from_app");
    assert("management_network_update_request"@.len() == 33);
    assert("management_permit_join_request"@.len() == 30);
    assert("startup_from_app"@.len() == 16);
    assert("startup_from_app"@ != "management_permit_join_request"@);
    assert("startup_from_app"@ != "management_network_update_request"@);
    reveal_strlit("start_delay");
    reveal_strlit("status");
    assert("start_delay"@.len() == 11);
    assert("status"@.len() == 6);
    assert forall|a: int, b: int|
        0 <= a < b < spec_cmd_startup_from_app().request->Some_0.len() implies spec_cmd_startup_from_app().request->Some_0[a].0@
        != spec_cmd_startup_from_app().request->Some_0[b].0@ by {
        if a == 0 && b == 1 {
            assert("start_delay"@ != "status"@);
        }
    }
}

/// Where `exit_route_disc` stands in the catalog, and that its schemas are
/// well formed.
pub proof fn lemma_cmd_exit_route_disc_facts()
    ensures
        spec_command_by_name(Subsystem::Zdo, "exit_route_disc"@) == Some(spec_cmd_exit_route_disc()),
        spec_command_by_id(Subsystem::Zdo, 69) == Some(spec_cmd_exit_route_disc()),
        spec_cmd_exit_route_disc().wf(),
{
    reveal_strlit("exit_route_disc");
    reveal_strlit("management_network_update_request");
    reveal_strlit("management_permit_join_request");
    reveal_strlit("startup_from_app");
    assert("exit_route_disc"@.len() == 15);
    assert("management_network_update_request"@.len() == 33);
    assert("management_permit_join_request"@.len() == 30);
    assert("startup_from_app"@.len() == 16);
    assert("exit_route_disc"@ != "management_permit_join_request"@);
    assert("exit_route_disc"@ != "management_network_update_request"@);
    assert("exit_route_disc"@ != "startup_from_app"@);
    reveal_strlit("destination_address");
    reveal_strlit("options");
    reveal_strlit("radius");
    assert("destination_address"@.len() == 19);
    assert("options"@.len() == 7);
    assert("radius"@.len() == 6);
    assert forall|a: int, b: int|
        0 <= a < b < spec_cmd_exit_route_disc().request->Some_0.len() implies spec_cmd_exit_route_disc().request->Some_0[a].0@
        != spec_cmd_exit_route_disc().request->Some_0[b].0@ by {
        if a == 0 && b == 1 {
            assert("destination_address"@ != "options"@);
        }
        if a == 0 && b == 2 {
            assert("destination_address"@ != "radius"@);
        }
        if a == 1 && b == 2 {
            assert("options"@ != "radius"@);
        }
    }
}

/// Where `state_changed_ind` stands in the catalog, and that its schemas are
/// well formed.
pub proof fn lemma_cmd_state_changed_ind_facts()
    ensures
        spec_command_by_name(Subsystem::Zdo, "state_changed_ind"@) == Some(spec_cmd_state_changed_ind()),
        spec_command_by_id(Subsystem::Zdo, 192) == Some(spec_cmd_state_changed_ind()),
        spec_cmd_state_changed_ind().wf(),
{
    reveal_strlit("exit_route_disc");
    reveal_strlit("management_network_update_request");
    reveal_strlit("management_permit_join_request");
    reveal_strlit("startup_from_app");
    reveal_strlit("state_changed_ind");
    assert("exit_route_disc"@.len() == 15);
    assert("management_network_update_request"@.len() == 33);
    assert("management_permit_join_request"@.len() == 30);
    assert("startup_from_app"@.len() == 16);
    assert("state_changed_ind"@.len() == 17);
    assert("state_changed_ind"@ != "management_permit_join_request"@);
    assert("state_changed_ind"@ != "management_network_update_request"@);
    assert("state_changed_ind"@ != "startup_from_app"@);
    assert("state_changed_ind"@ != "exit_route_disc"@);
}

/// Where `tc_device_index` stands in the catalog, and that its schemas are
/// well formed.
pub proof fn lemma_cmd_tc_device_index_facts()
    ensures
        spec_command_by_name(Subsystem::Zdo, "tc_device_index"@) == Some(spec_cmd_tc_device_index()),
        spec_command_by_id(Subsystem::Zdo, 202) == Some(spec_cmd_tc_device_index()),
        spec_cmd_tc_device_index().wf(),
{
    reveal_strlit("exit_route_disc");
    reveal_strlit("management_network_update_request");
    reveal_strlit("management_permit_join_request");
    reveal_strlit("startup_from_app");
    reveal_strlit("state_changed_ind");
    reveal_strlit("tc_device_index");
    assert("exit_route_disc"@.len() == 15);
    assert("management_network_update_request"@.len() == 33);
    assert("management_permit_join_request"@.len() == 30);
    assert("startup_from_app"@.len() == 16);
    assert("state_changed_ind"@.len() == 17);
    assert("tc_device_index"@.len() == 15);
    assert("tc_device_index"@ != "management_permit_join_request"@);
    assert("tc_device_index"@ != "management_network_update_request"@);
    assert("tc_device_index"@ != "startup_from_app"@);
    assert("exit_route_disc"@[0] == 'e');
    assert("tc_device_index"@[0] == 't');
    assert("tc_device_index"@ != "exit_route_disc"@);
    assert("tc_device_index"@ != "state_changed_ind"@);
    reveal_strlit("extended_address");
    reveal_strlit("network_address");
    reveal_strlit("parent_address");
    assert("extended_address"@.len() == 16);
    assert("network_address"@.len() == 15);
    assert("parent_address"@.len() == 14);
    assert forall|a: int, b: int|
        0 <= a < b < spec_cmd_tc_device_index().request->Some_0.len() implies spec_cmd_tc_device_index().request->Some_0[a].0@
        != spec_cmd_tc_device_index().request->Some_0[b].0@ by {
        if a == 0 && b == 1 {
            assert("network_address"@ != "extended_address"@);
        }
        if a == 0 && b == 2 {
            assert("network_address"@ != "parent_address"@);
        }
        if a == 1 && b == 2 {
            assert("extended_address"@ != "parent_address"@);
        }
    }
}

/// Where `get_device_info` stands in the catalog, and that its schemas are
/// well formed.
pub proof fn lemma_cmd_get_device_info_facts()
    ensures
        spec_command_by_name(Subsystem::Util, "get_device_info"@) == Some(spec_cmd_get_device_info()),
        spec_command_by_id(Subsystem::Util, 0) == Some(spec_cmd_get_device_info()),
        spec_cmd_get_device_info().wf(),
{
    reveal_strlit("get_device_info");
    assert("get_device_info"@.len() == 15);
    reveal_strlit("assoc_devices_list");
    reveal_strlit("device_state");
    reveal_strlit("device_type");
    reveal_strlit("ieee_addr");
    reveal_strlit("num_assoc_devices");
    reveal_strlit("short_addr");
    reveal_strlit("status");
    assert("assoc_devices_list"@.len() == 18);
    assert("device_state"@.len() == 12);
    assert("device_type"@.len() == 11);
    assert("ieee_addr"@.len() == 9);
    assert("num_assoc_devices"@.len() == 17);
    assert("short_addr"@.len() == 10);
    assert("status"@.len() == 6);
    assert forall|a: int, b: int|
        0 <= a < b < spec_cmd_get_device_info().response->Some_0.len() implies spec_cmd_get_device_info().response->Some_0[a].0@
        != spec_cmd_get_device_info().response->Some_0[b].0@ by {
        if a == 0 && b == 1 {
            assert("status"@ != "ieee_addr"@);
        }
        if a == 0 && b == 2 {
            assert("status"@ != "short_addr"@);
        }
        if a == 0 && b == 3 {
            assert("status"@ != "device_type"@);
        }
        if a == 0 && b == 4 {
            assert("status"@ != "device_state"@);
        }
        if a == 0 && b == 5 {
            assert("status"@ != "num_assoc_devices"@);
        }
        if a == 0 && b == 6 {
            assert("status"@ != "assoc_devices_list"@);
        }
        if a == 1 && b == 2 {
            assert("ieee_addr"@ != "short_addr"@);
        }
        if a == 1 && b == 3 {
            assert("ieee_addr"@ != "device_type"@);
        }
        if a == 1 && b == 4 {
            assert("ieee_addr"@ != "device_state"@);
        }
        if a == 1 && b == 5 {
            assert("ieee_addr"@ != "num_assoc_devices"@);
        }
        if a == 1 && b == 6 {
            assert("ieee_addr"@ != "assoc_devices_list"@);
        }
        if a == 2 && b == 3 {
            assert("short_addr"@ != "device_type"@);
        }
        if a == 2 && b == 4 {
            assert("short_addr"@ != "device_state"@);
        }
        if a == 2 && b == 5 {
            assert("short_addr"@ != "num_assoc_devices"@);
        }
        if a == 2 && b == 6 {
            assert("short_addr"@ != "assoc_devices_list"@);
        }
        if a == 3 && b == 4 {
            assert("device_type"@ != "device_state"@);
        }
        if a == 3 && b == 5 {
            assert("device_type"@ != "num_assoc_devices"@);
        }
        if a == 3 && b == 6 {
            assert("device_type"@ != "assoc_devices_list"@);
        }
        if a == 4 && b == 5 {
            assert("device_state"@ != "num_assoc_devices"@);
        }
        if a == 4 && b == 6 {
            assert("device_state"@ != "assoc_devices_list"@);
        }
        if a == 5 && b == 6 {
            assert("num_assoc_devices"@ != "assoc_devices_list"@);
        }
    }
}

/// Where `led_control` stands in the catalog, and that its schemas are
/// well formed.
pub proof fn lemma_cmd_led_control_facts()
    ensures
        spec_command_by_name(Subsystem::Util, "led_control"@) == Some(spec_cmd_led_control()),
        spec_command_by_id(Subsystem::Util, 10) == Some(spec_cmd_led_control()),
        spec_cmd_led_control().wf(),
{
    reveal_strlit("get_device_info");
    reveal_strlit("led_control");
    assert("get_device_info"@.len() == 15);
    assert("led_control"@.len() == 11);
    assert("led_control"@ != "get_device_info"@);
    reveal_strlit("led_id");
    reveal_strlit("mode");
    assert("led_id"@.len() == 6);
    assert("mode"@.len() == 4);
    assert forall|a: int, b: int|
        0 <= a < b < spec_cmd_led_control().request->Some_0.len() implies spec_cmd_led_control().request->Some_0[a].0@
        != spec_cmd_led_control().request->Some_0[b].0@ by {
        if a == 0 && b == 1 {
            assert("led_id"@ != "mode"@);
        }
    }
}

} // verus!

verus! {

/// The field names of the device-info response are pairwise distinct.
pub proof fn lemma_device_info_fields_distinct(data: Seq<u8>)
    ensures
        spec_read_device_info(data) matches Ok(fields) ==> fields.len() == 7 && (forall|a: int, b: int|
            0 <= a < b < fields.len() ==> fields[a].0@ != fields[b].0@),
{
    reveal_strlit("status");
    reveal_strlit("ieee_addr");
    reveal_strlit("short_addr");
    reveal_strlit("device_type");
    reveal_strlit("device_state");
    reveal_strlit("num_assoc_devices");
    reveal_strlit("assoc_devices_list");
    assert("status"@.len() == 6);
    assert("ieee_addr"@.len() == 9);
    assert("short_addr"@.len() == 10);
    assert("device_type"@.len() == 11);
    assert("device_state"@.len() == 12);
    assert("num_assoc_devices"@.len() == 17);
    assert("assoc_devices_list"@.len() == 18);
    if spec_read_device_info(data) is Ok {
        let fields = spec_read_device_info(data)->Ok_0;
        assert forall|a: int, b: int|
            0 <= a < b < fields.len() implies fields[a].0@ != fields[b].0@ by {
            if a == 0 && b == 1 {
                assert("status"@ != "ieee_addr"@);
            }
            if a == 0 && b == 2 {
                assert("status"@ != "short_addr"@);
            }
            if a == 0 && b == 3 {
                assert("status"@ != "device_type"@);
            }
            if a == 0 && b == 4 {
                assert("status"@ != "device_state"@);
            }
            if a == 0 && b == 5 {
                assert("status"@ != "num_assoc_devices"@);
            }
            if a == 0 && b == 6 {
                assert("status"@ != "assoc_devices_list"@);
            }
            if a == 1 && b == 2 {
                assert("ieee_addr"@ != "short_addr"@);
            }
            if a == 1 && b == 3 {
                assert("ieee_addr"@ != "device_type"@);
            }
            if a == 1 && b == 4 {
                assert("ieee_addr"@ != "device_state"@);
            }
            if a == 1 && b == 5 {
                assert("ieee_addr"@ != "num_assoc_devices"@);
            }
            if a == 1 && b == 6 {
                assert("ieee_addr"@ != "assoc_devices_list"@);
            }
            if a == 2 && b == 3 {
                assert("short_addr"@ != "device_type"@);
            }
            if a == 2 && b == 4 {
                assert("short_addr"@ != "device_state"@);
            }
            if a == 2 && b == 5 {
                assert("short_addr"@ != "num_assoc_devices"@);
            }
            if a == 2 && b == 6 {
                assert("short_addr"@ != "assoc_devices_list"@);
            }
            if a == 3 && b == 4 {
                assert("device_type"@ != "device_state"@);
            }
            if a == 3 && b == 5 {
                assert("device_type"@ != "num_assoc_devices"@);
            }
            if a == 3 && b == 6 {
                assert("device_type"@ != "assoc_devices_list"@);
            }
            if a == 4 && b == 5 {
                assert("device_state"@ != "num_assoc_devices"@);
            }
            if a == 4 && b == 6 {
                assert("device_state"@ != "assoc_devices_list"@);
            }
            if a == 5 && b == 6 {
                assert("num_assoc_devices"@ != "assoc_devices_list"@);
            }
        }
    }
}

/// In a map that holds exactly `fields` with distinct names, looking a
/// field's name up gives that field's value.
pub proof fn lemma_map_get_field(
    m: ParametersValueMap,
    fields: Seq<(&'static str, ParameterValueView)>,
    i: int,
)
    requires
        map_matches_fields(m, fields),
        forall|a: int, b: int| 0 <= a < b < fields.len() ==> fields[a].0@ != fields[b].0@,
        0 <= i < fields.len(),
    ensures
        m.spec_get(fields[i].0@) matches Some(v) && v@ == fields[i].1,
{
    lemma_first_key_idx(m.slots@, fields[i].0@);
    let idx = first_key_idx(m.slots@, fields[i].0@);
    assert(slot_has_key(m.slots@[i], fields[i].0@));
    if idx < 0 {
        assert(false);
    }
    if idx != i {
        if idx < i {
            assert(m.slots@[idx] matches Some(kv) && kv.0@ == fields[idx].0@);
            assert(false);
        } else {
            assert(!slot_has_key(m.slots@[i], fields[i].0@));
            assert(false);
        }
    }
}

} // verus!

verus! {

use crate::unpi::{LenTypeInfo, UnpiPacket};

impl UnpiPacket {
    /// Builds a whole packet around a catalog command: the parameters
    /// encoded against the request schema become the payload, framed
    /// under the command's opcode.
    pub fn from_command_owned(
        len_type_info: LenTypeInfo,
        type_subsystem: (MessageType, Subsystem),
        parameters: &[(&'static str, ParameterValue)],
        command: &Command,
    ) -> (r: Result<UnpiPacket, ParameterError>)
        requires
            forall|i: int| 0 <= i < parameters@.len() ==> (#[trigger] parameters@[i]).1.wf(),
        ensures
            ({
                let bytes_r = match command@.request {
                    Some(sch) => spec_fill(parameters@, sch),
                    None => Ok::<Seq<u8>, ParameterError>(Seq::<u8>::empty()),
                };
                match bytes_r {
                    Err(e) => r == Err::<UnpiPacket, ParameterError>(e),
                    Ok(bytes) => {
                        let fits = match len_type_info {
                            LenTypeInfo::OneByte => bytes.len() <= 255,
                            LenTypeInfo::TwoByte => bytes.len() <= 65535,
                        };
                        if fits {
                            r matches Ok(p) && p@.wf() && p@.len.matches_info(len_type_info)
                                && p@.payload == bytes && p@.type_subsystem == type_subsystem
                                && p@.command == command@.id
                        } else {
                            r == Err::<UnpiPacket, ParameterError>(
                                ParameterError::InvalidParameter,
                            )
                        }
                    },
                }
            }),
    {
        let mut writer = SliceWriter::new();
        match command.fill_and_write(parameters, &mut writer) {
            Ok(_) => {},
            Err(e) => {
                return Err(e);
            },
        }
        let payload = writer.into_bytes();
        if payload.len() > 65535 {
            return Err(ParameterError::InvalidParameter);
        }
        match len_type_info {
            LenTypeInfo::OneByte => {
                if payload.len() > 255 {
                    return Err(ParameterError::InvalidParameter);
                }
            },
            LenTypeInfo::TwoByte => {},
        }
        Ok(UnpiPacket::from_payload(payload.as_slice(), len_type_info, type_subsystem, command.id))
    }
}

} // verus!

verus! {

/// Decoded fields carry the schema's names, in schema order.
pub proof fn lemma_read_fields_names(
    schema: Seq<(&'static str, ParameterType)>,
    data: Seq<u8>,
    pos: int,
)
    ensures
        spec_read_fields(schema, data, pos) matches Ok(fp) ==> fp.0.len() == schema.len() && forall|
            i: int,
        | 0 <= i < schema.len() ==> (#[trigger] fp.0[i]).0 == schema[i].0,
    decreases schema.len(),
{
    if schema.len() > 0 {
        match spec_read_param(schema[0].1, data, pos) {
            Err(_) => {},
            Ok((v, p2)) => {
                lemma_read_fields_names(schema.drop_first(), data, p2);
                if spec_read_fields(schema.drop_first(), data, p2) is Ok {
                    let rest = spec_read_fields(schema.drop_first(), data, p2)->Ok_0.0;
                    let fields = seq![(schema[0].0, v)] + rest;
                    assert(forall|i: int|
                        1 <= i < schema.len() ==> (#[trigger] fields[i]) == rest[i - 1]);
                    assert(forall|i: int|
                        1 <= i < schema.len() ==> schema[i] == schema.drop_first()[i - 1]);
                }
            },
        }
    }
}

} // verus!
