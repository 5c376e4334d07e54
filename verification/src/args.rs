//! Assembly of the command-line argument list handed to the client runtime:
//! every foreign byte string must be well-formed UTF-8, and a synthetic
//! program-name argument is prepended before parsing.

use vstd::prelude::*;
use crate::utf8::check_utf8;
use crate::utf8::copy_bytes;
use crate::utf8::is_utf8;
use crate::utf8::lemma_ascii_is_utf8;

verus! {

/// The byte-level view of each buffer in a list of buffers.
pub open spec fn views_of(args: Seq<Vec<u8>>) -> Seq<Seq<u8>> {
    args.map_values(|v: Vec<u8>| v@)
}

/// Every argument decodes as well-formed UTF-8.
pub open spec fn all_utf8(args: Seq<Seq<u8>>) -> bool {
    forall|i: int| 0 <= i < args.len() ==> is_utf8(#[trigger] args[i])
}

/// The synthetic program-name argument, the ASCII bytes of "parity".
pub open spec fn program_name() -> Seq<u8> {
    seq![112u8, 97u8, 114u8, 105u8, 116u8, 121u8]
}

/// The argument list the runtime is asked to parse: the program name followed
/// by the caller's arguments, unchanged and in order.
pub open spec fn cli_args(raw: Seq<Seq<u8>>) -> Seq<Seq<u8>> {
    seq![program_name()].add(raw)
}

/// Law: assembling the runtime's argument list loses and alters nothing —
/// the program name is prepended and every caller argument follows it
/// unchanged and in order.
pub proof fn lemma_cli_args_preserves_arguments(raw: Seq<Seq<u8>>)
    ensures
        cli_args(raw).len() == raw.len() + 1,
        cli_args(raw)[0] == program_name(),
        forall|i: int| 0 <= i < raw.len() ==> cli_args(raw)[i + 1] == raw[i],
{
}

/// Produces the program-name argument as an owned buffer.
pub fn program_name_arg() -> (r: Vec<u8>)
    ensures
        r@ == program_name(),
        is_utf8(r@),
{
    let mut v: Vec<u8> = Vec::new();
    v.push(112);
    v.push(97);
    v.push(114);
    v.push(105);
    v.push(116);
    v.push(121);
    proof {
        assert(v@ =~= program_name());
        lemma_ascii_is_utf8(v@);
    }
    v
}

/// Turns the foreign argument buffers into the list the runtime parses.
///
/// Succeeds — status 0 — exactly when every buffer is well-formed UTF-8; the
/// list is then the program name followed by the caller's arguments.  A
/// single malformed buffer rejects the whole operation with status 1, no
/// list, and therefore no configuration: the output handle slot stays empty.
pub fn build_cli_args(raw: &Vec<Vec<u8>>) -> (r: (i32, Option<Vec<Vec<u8>>>))
    ensures
        r.0 == 0 <==> all_utf8(views_of(raw@)),
        !all_utf8(views_of(raw@)) ==> r.0 == 1,
        r.1 is Some <==> r.0 == 0,
        r.1 matches Some(out) ==> views_of(out@) == cli_args(views_of(raw@)) && all_utf8(
            views_of(out@),
        ),
{
    let mut out: Vec<Vec<u8>> = Vec::new();
    out.push(program_name_arg());
    let n = raw.len();
    let mut j: usize = 0;
    while j < n
        invariant
            j <= n,
            n == raw@.len(),
            out@.len() == j + 1,
            out@[0]@ == program_name(),
            forall|i: int| 0 <= i < j ==> is_utf8(#[trigger] views_of(raw@)[i]),
            forall|i: int| 0 <= i < j ==> #[trigger] out@[i + 1]@ == views_of(raw@)[i],
        decreases n - j,
    {
        if !check_utf8(&raw[j]) {
            proof {
                assert(views_of(raw@)[j as int] == raw@[j as int]@);
                assert(!all_utf8(views_of(raw@)));
            }
            return (1, None);
        }
        out.push(copy_bytes(&raw[j]));
        j = j + 1;
    }
    proof {
        assert forall|i: int| 0 <= i < raw@.len() implies is_utf8(#[trigger] views_of(raw@)[i]) by {
        }
        assert forall|i: int| 0 <= i < out@.len() implies views_of(out@)[i] == cli_args(
            views_of(raw@),
        )[i] by {
            assert(views_of(out@)[i] == out@[i]@);
            if i >= 1 {
                assert(out@[(i - 1) + 1]@ == views_of(raw@)[i - 1]);
                assert(cli_args(views_of(raw@))[i] == views_of(raw@)[i - 1]);
            }
        }
        assert(views_of(out@) =~= cli_args(views_of(raw@)));
        lemma_ascii_is_utf8(program_name());
        assert forall|i: int| 0 <= i < views_of(out@).len() implies is_utf8(
            #[trigger] views_of(out@)[i],
        ) by {
            if i >= 1 {
                assert(views_of(out@)[i] == views_of(raw@)[i - 1]);
            }
        }
    }
    (0, Some(out))
}

} // verus!
