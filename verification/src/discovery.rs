//! Pairing of discovered MIDI port names.
//!
//! An input port is a candidate if its name starts with the device family's
//! fixed prefix; its paired output port is the one whose name is
//! character-for-character identical to the input port's name. Enumerating
//! the system's ports and opening them is I/O and stays with the caller;
//! this module decides, from the two name lists, which ports belong
//! together. Names are handled as their raw bytes.

use vstd::prelude::*;

verus! {

/// Whether `p` is a prefix of `s`.
pub open spec fn is_prefix_of(p: Seq<u8>, s: Seq<u8>) -> bool {
    p.len() <= s.len() && s.subrange(0, p.len() as int) == p
}

/// The fixed name prefix of the device family's ports ("FL STUDIO FIRE"
/// as raw bytes).
pub open spec fn spec_port_prefix() -> Seq<u8> {
    seq![0x46u8, 0x4c, 0x20, 0x53, 0x54, 0x55, 0x44, 0x49, 0x4f, 0x20, 0x46, 0x49, 0x52, 0x45]
}

/// The device-family port-name prefix as bytes, for both the input and the
/// output side.
pub fn midi_port_prefix() -> (r: Vec<u8>)
    ensures
        r@ == spec_port_prefix(),
{
    let mut v: Vec<u8> = Vec::new();
    v.push(0x46);
    v.push(0x4c);
    v.push(0x20);
    v.push(0x53);
    v.push(0x54);
    v.push(0x55);
    v.push(0x44);
    v.push(0x49);
    v.push(0x4f);
    v.push(0x20);
    v.push(0x46);
    v.push(0x49);
    v.push(0x52);
    v.push(0x45);
    proof {
        assert(v@ =~= spec_port_prefix());
    }
    v
}

/// Whether two byte strings are identical.
pub fn bytes_eq(a: &Vec<u8>, b: &Vec<u8>) -> (r: bool)
    ensures
        r == (a@ == b@),
{
    if a.len() != b.len() {
        return false;
    }
    let n = a.len();
    let mut i: usize = 0;
    while i < n
        invariant
            i <= n,
            n == a@.len(),
            n == b@.len(),
            forall|k: int| 0 <= k < i ==> a@[k] == b@[k],
        decreases n - i,
    {
        if a[i] != b[i] {
            return false;
        }
        i = i + 1;
    }
    proof {
        assert(a@ =~= b@);
    }
    true
}

/// Whether `name` starts with `prefix`.
pub fn name_has_prefix(name: &Vec<u8>, prefix: &Vec<u8>) -> (r: bool)
    ensures
        r == is_prefix_of(prefix@, name@),
{
    if name.len() < prefix.len() {
        return false;
    }
    let n = prefix.len();
    let mut i: usize = 0;
    while i < n
        invariant
            i <= n,
            n == prefix@.len(),
            n <= name@.len(),
            forall|k: int| 0 <= k < i ==> name@[k] == prefix@[k],
        decreases n - i,
    {
        if name[i] != prefix[i] {
            proof {
                assert(name@.subrange(0, n as int)[i as int] != prefix@[i as int]);
            }
            return false;
        }
        i = i + 1;
    }
    proof {
        assert(name@.subrange(0, n as int) =~= prefix@);
    }
    true
}

/// Index of the first port whose name equals `target`, if any.
pub fn find_port_by_name(names: &Vec<Vec<u8>>, target: &Vec<u8>) -> (r: Option<usize>)
    ensures
        match r {
            Some(o) => {
                &&& o < names@.len()
                &&& names@[o as int]@ == target@
                &&& forall|k: int| 0 <= k < o ==> names@[k]@ != target@
            },
            None => forall|k: int| 0 <= k < names@.len() ==> names@[k]@ != target@,
        },
{
    let n = names.len();
    let mut i: usize = 0;
    while i < n
        invariant
            i <= n,
            n == names@.len(),
            forall|k: int| 0 <= k < i ==> names@[k]@ != target@,
        decreases n - i,
    {
        if bytes_eq(&names[i], target) {
            return Some(i);
        }
        i = i + 1;
    }
    None
}

/// One planned attachment: an index into the input-port name list and the
/// index of the output port carrying the identical name.
#[derive(Copy, Clone, Debug, PartialEq, Eq, Structural)]
pub struct PortPair {
    pub input: usize,
    pub output: usize,
}

/// The byte sequences of a list of byte-vector names.
pub open spec fn name_seqs(names: Seq<Vec<u8>>) -> Seq<Seq<u8>> {
    names.map_values(|v: Vec<u8>| v@)
}

/// Whether input port `i` should be attached at all: its name carries the
/// prefix and some output port carries the identical name.
pub open spec fn attachable(
    inputs: Seq<Seq<u8>>,
    outputs: Seq<Seq<u8>>,
    prefix: Seq<u8>,
    i: int,
) -> bool {
    is_prefix_of(prefix, inputs[i]) && exists|o: int|
        0 <= o < outputs.len() && outputs[o] == inputs[i]
}

/// Plan which ports to attach: every input port whose name starts with
/// `prefix` is paired with the first output port whose name is identical,
/// in input order; inputs without the prefix or without a matching output
/// are left out (to be reported by the caller, not to abort discovery).
pub fn plan_attachments(
    input_names: &Vec<Vec<u8>>,
    output_names: &Vec<Vec<u8>>,
    prefix: &Vec<u8>,
) -> (r: Vec<PortPair>)
    ensures
        forall|k: int|
            0 <= k < r@.len() ==> {
                let pr = #[trigger] r@[k];
                &&& pr.input < input_names@.len()
                &&& is_prefix_of(prefix@, input_names@[pr.input as int]@)
                &&& pr.output < output_names@.len()
                &&& output_names@[pr.output as int]@ == input_names@[pr.input as int]@
                &&& forall|o: int|
                    0 <= o < pr.output ==> output_names@[o]@ != input_names@[pr.input as int]@
            },
        forall|k1: int, k2: int|
            0 <= k1 < k2 < r@.len() ==> r@[k1].input < r@[k2].input,
        forall|i: int|
            0 <= i < input_names@.len() && #[trigger] attachable(
                name_seqs(input_names@),
                name_seqs(output_names@),
                prefix@,
                i,
            ) ==> exists|k: int| 0 <= k < r@.len() && r@[k].input == i,
{
    let ghost ins = name_seqs(input_names@);
    let ghost outs = name_seqs(output_names@);
    let mut pairs: Vec<PortPair> = Vec::new();
    let n = input_names.len();
    let mut i: usize = 0;
    while i < n
        invariant
            i <= n,
            n == input_names@.len(),
            ins == name_seqs(input_names@),
            outs == name_seqs(output_names@),
            forall|k: int|
                0 <= k < pairs@.len() ==> {
                    let pr = #[trigger] pairs@[k];
                    &&& pr.input < i
                    &&& is_prefix_of(prefix@, input_names@[pr.input as int]@)
                    &&& pr.output < output_names@.len()
                    &&& output_names@[pr.output as int]@ == input_names@[pr.input as int]@
                    &&& forall|o: int|
                        0 <= o < pr.output ==> output_names@[o]@ != input_names@[pr.input as int]@
                },
            forall|k1: int, k2: int|
                0 <= k1 < k2 < pairs@.len() ==> pairs@[k1].input < pairs@[k2].input,
            forall|t: int|
                0 <= t < i && #[trigger] attachable(ins, outs, prefix@, t) ==> exists|k: int|
                    0 <= k < pairs@.len() && pairs@[k].input == t,
        decreases n - i,
    {
        let ghost pairs_before = pairs@;
        if name_has_prefix(&input_names[i], prefix) {
            match find_port_by_name(output_names, &input_names[i]) {
                Some(o) => {
                    pairs.push(PortPair { input: i, output: o });
                    proof {
                        assert(pairs@[pairs@.len() - 1].input == i as int);
                        assert forall|t: int|
                            0 <= t < i + 1 && #[trigger] attachable(
                                ins,
                                outs,
                                prefix@,
                                t,
                            ) implies exists|k: int|
                            0 <= k < pairs@.len() && pairs@[k].input == t by {
                            if t < i as int {
                                let k0 = choose|k: int|
                                    0 <= k < pairs_before.len() && pairs_before[k].input == t;
                                assert(pairs@[k0].input == t);
                            } else {
                                assert(pairs@[pairs@.len() - 1].input == t);
                            }
                        }
                    }
                },
                None => {
                    proof {
                        assert forall|o: int|
                            0 <= o < outs.len() implies outs[o] != ins[i as int] by {
                            assert(output_names@[o]@ != input_names@[i as int]@);
                        }
                        assert(!attachable(ins, outs, prefix@, i as int));
                    }
                },
            }
        } else {
            proof {
                assert(!is_prefix_of(prefix@, ins[i as int]));
                assert(!attachable(ins, outs, prefix@, i as int));
            }
        }
        i = i + 1;
    }
    pairs
}

} // verus!
