//! Monitor metadata: per-output key/value info and the serialized list of
//! all outputs.

use crate::json::{
    append_dec_i32, append_json_string, append_literal, bytes_of_literal, copy_bytes, dec_int,
    joined, json_string, lemma_joined_push,
};
use crate::state::WayiceState;
use vstd::prelude::*;
use vstd::utf8::encode_utf8;

verus! {

/// One display mode of an output.
#[derive(Clone, Copy, PartialEq, Eq, Debug)]
pub struct OutputMode {
    pub width: i32,
    pub height: i32,
    /// Refresh rate in millihertz.
    pub refresh: i32,
}

/// One output (monitor) as this layer sees it.
#[derive(Clone, PartialEq, Eq, Debug)]
pub struct OutputInfo {
    pub name: Vec<u8>,
    pub description: Vec<u8>,
    /// The current mode, when the output has one.
    pub mode: Option<OutputMode>,
}

/// The key/value pairs describing one output: name and description always,
/// and the mode's width, height and refresh rate when it has a current mode.
pub open spec fn monitor_info_pairs(o: OutputInfo) -> Seq<(Seq<u8>, Seq<u8>)> {
    let base = seq![
        (encode_utf8("name"@), o.name@),
        (encode_utf8("description"@), o.description@),
    ];
    match o.mode {
        Some(m) => base + seq![
            (encode_utf8("width"@), dec_int(m.width as int)),
            (encode_utf8("height"@), dec_int(m.height as int)),
            (encode_utf8("refresh_rate"@), dec_int(m.refresh as int) + encode_utf8(" Hz"@)),
        ],
        None => base,
    }
}

/// The info published for one output, as key/value pairs in the order they
/// are gathered.
pub fn get_monitor_info(output: &OutputInfo) -> (r: Vec<(Vec<u8>, Vec<u8>)>)
    ensures
        r@.len() == monitor_info_pairs(*output).len(),
        forall|i: int|
            0 <= i < r@.len() ==> (#[trigger] r@[i]).0@ == monitor_info_pairs(*output)[i].0
                && r@[i].1@ == monitor_info_pairs(*output)[i].1,
{
    let mut out: Vec<(Vec<u8>, Vec<u8>)> = Vec::new();
    out.push((bytes_of_literal("name"), copy_bytes(output.name.as_slice())));
    out.push((bytes_of_literal("description"), copy_bytes(output.description.as_slice())));
    match &output.mode {
        Some(m) => {
            let mut width: Vec<u8> = Vec::new();
            append_dec_i32(&mut width, m.width);
            out.push((bytes_of_literal("width"), width));
            let mut height: Vec<u8> = Vec::new();
            append_dec_i32(&mut height, m.height);
            out.push((bytes_of_literal("height"), height));
            let mut refresh: Vec<u8> = Vec::new();
            append_dec_i32(&mut refresh, m.refresh);
            append_literal(&mut refresh, " Hz");
            out.push((bytes_of_literal("refresh_rate"), refresh));
        },
        None => {},
    }
    out
}

/// The record published for one output that has a current mode: one JSON
/// object with its name, refresh rate, and size.
pub open spec fn output_json(o: OutputInfo) -> Seq<u8>
    recommends
        o.mode is Some,
{
    let m = o.mode.unwrap();
    encode_utf8("{\"name\":"@) + json_string(o.name@) + encode_utf8(",\"refresh_rate\":"@)
        + dec_int(m.refresh as int) + encode_utf8(",\"size\":{\"height\":"@) + dec_int(
        m.height as int,
    ) + encode_utf8(",\"width\":"@) + dec_int(m.width as int) + encode_utf8("}}"@)
}

/// The records of a list of outputs, in enumeration order.
pub open spec fn outputs_records(os: Seq<OutputInfo>) -> Seq<Seq<u8>>
    decreases os.len(),
{
    if os.len() == 0 {
        Seq::empty()
    } else {
        seq![output_json(os[0])] + outputs_records(os.drop_first())
    }
}

/// One more output contributes its record at the end.
pub proof fn lemma_outputs_records_push(os: Seq<OutputInfo>, o: OutputInfo)
    ensures
        outputs_records(os.push(o)) == outputs_records(os).push(output_json(o)),
    decreases os.len(),
{
    if os.len() == 0 {
        assert(os.push(o).drop_first() =~= Seq::<OutputInfo>::empty());
        assert(outputs_records(Seq::<OutputInfo>::empty()) == Seq::<Seq<u8>>::empty());
        assert(outputs_records(os.push(o)) =~= outputs_records(os).push(output_json(o)));
    } else {
        lemma_outputs_records_push(os.drop_first(), o);
        assert(os.push(o).drop_first() =~= os.drop_first().push(o));
        assert(outputs_records(os.push(o)) =~= outputs_records(os).push(output_json(o)));
    }
}

/// The published list of outputs: one JSON array, in enumeration order.
pub open spec fn outputs_json(os: Seq<OutputInfo>) -> Seq<u8> {
    seq![0x5bu8] + joined(outputs_records(os)) + seq![0x5du8]
}

impl WayiceState {
    /// Serialize every known output. Each output must have a current mode.
    pub fn list_all_outputs(&self) -> (r: Vec<u8>)
        requires
            forall|i: int|
                0 <= i < self.outputs@.len() ==> (#[trigger] self.outputs@[i]).mode is Some,
        ensures
            r@ == outputs_json(self.outputs@),
    {
        let mut out: Vec<u8> = Vec::new();
        out.push(0x5b);
        let mut i: usize = 0;
        proof {
            assert(self.outputs@.take(0) =~= Seq::<OutputInfo>::empty());
            assert(outputs_records(Seq::<OutputInfo>::empty()) == Seq::<Seq<u8>>::empty());
            assert(joined(Seq::<Seq<u8>>::empty()) == Seq::<u8>::empty());
            assert(out@ =~= seq![0x5bu8] + joined(outputs_records(self.outputs@.take(0))));
        }
        while i < self.outputs.len()
            invariant
                i <= self.outputs@.len(),
                forall|k: int|
                    0 <= k < self.outputs@.len() ==> (#[trigger] self.outputs@[k]).mode is Some,
                out@ == seq![0x5bu8] + joined(outputs_records(self.outputs@.take(i as int))),
            decreases self.outputs@.len() - i,
        {
            let ghost prefix = outputs_records(self.outputs@.take(i as int));
            let o = &self.outputs[i];
            let mut rec: Vec<u8> = Vec::new();
            append_literal(&mut rec, "{\"name\":");
            append_json_string(&mut rec, o.name.as_slice());
            append_literal(&mut rec, ",\"refresh_rate\":");
            let mode = o.mode.as_ref().unwrap();
            append_dec_i32(&mut rec, mode.refresh);
            append_literal(&mut rec, ",\"size\":{\"height\":");
            append_dec_i32(&mut rec, mode.height);
            append_literal(&mut rec, ",\"width\":");
            append_dec_i32(&mut rec, mode.width);
            append_literal(&mut rec, "}}");
            assert(rec@ =~= output_json(self.outputs@[i as int]));
            proof {
                lemma_outputs_records_push(
                    self.outputs@.take(i as int),
                    self.outputs@[i as int],
                );
                assert(self.outputs@.take(i as int).push(self.outputs@[i as int])
                    =~= self.outputs@.take(i as int + 1));
                lemma_joined_push(prefix, rec@);
            }
            if i > 0 {
                out.push(0x2c);
            }
            crate::json::append_bytes(&mut out, rec.as_slice());
            i = i + 1;
            assert(out@ =~= seq![0x5bu8] + joined(outputs_records(self.outputs@.take(i as int))));
        }
        proof {
            assert(self.outputs@.take(self.outputs@.len() as int) =~= self.outputs@);
        }
        out.push(0x5d);
        assert(out@ =~= outputs_json(self.outputs@));
        out
    }
}

} // verus!
