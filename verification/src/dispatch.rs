//! The boundary dispatcher.
//!
//! Each top-level operation hands one payload buffer back across the
//! boundary: the structured encoding of `Option<binary>` for a call, of
//! `Option<string>` for a validation.  On failure the error's message goes to
//! the designated error slot and the payload is the encoding of the absent
//! value — no partial result ever rides along with an error.  A payload that
//! cannot be encoded (its length overruns the format's prefix) degrades to an
//! empty buffer rather than a fault.

use vstd::prelude::*;
use crate::envelope::binary_fits;
use crate::envelope::enc_binary;
use crate::envelope::enc_string;
use crate::envelope::encode_binary;
use crate::envelope::encode_string;
use crate::envelope::string_fits;
use crate::errors::LinkError;

verus! {

/// Encoding of an optional binary value: a presence tag, then the value.
pub open spec fn enc_opt_binary(v: Option<Seq<u8>>) -> Seq<u8> {
    match v {
        None => seq![0u8],
        Some(b) => seq![1u8] + enc_binary(b),
    }
}

/// Encoding of an optional string: a presence tag, then the string.
pub open spec fn enc_opt_string(s: Option<Seq<char>>) -> Seq<u8> {
    match s {
        None => seq![0u8],
        Some(t) => seq![1u8] + enc_string(t),
    }
}

/// What one boundary operation hands back: the payload buffer and, on
/// failure, the message for the error slot.
pub struct BoundaryOutput {
    /// Structured encoding of the operation's value.
    pub payload: Vec<u8>,
    /// The error message, absent on success.
    pub error: Option<String>,
}

/// Appends `src` to `dst`.
fn append_bytes(dst: &mut Vec<u8>, src: &Vec<u8>)
    ensures
        final(dst)@ == old(dst)@ + src@,
{
    let mut i: usize = 0;
    while i < src.len()
        invariant
            i <= src@.len(),
            dst@ == old(dst)@ + src@.subrange(0, i as int),
        decreases src@.len() - i,
    {
        dst.push(src[i]);
        proof {
            assert(old(dst)@ + src@.subrange(0, i + 1) =~= (old(dst)@ + src@.subrange(
                0,
                i as int,
            )).push(src@[i as int]));
        }
        i = i + 1;
    }
    proof {
        assert(old(dst)@ + src@.subrange(0, src@.len() as int) =~= old(dst)@ + src@);
    }
}

/// Encodes an optional binary value; `None` when the value overruns the
/// format.
pub fn encode_option_binary(v: &Option<Vec<u8>>) -> (r: Option<Vec<u8>>)
    ensures
        match r {
            Some(out) => (match v {
                Some(b) => binary_fits(b@) && out@ == enc_opt_binary(Some(b@)),
                None => out@ == enc_opt_binary(None),
            }),
            None => v matches Some(b) && !binary_fits(b@),
        },
{
    let mut out: Vec<u8> = Vec::new();
    match v {
        None => {
            out.push(0u8);
            proof {
                assert(out@ =~= seq![0u8]);
            }
            Some(out)
        },
        Some(b) => {
            let enc = match encode_binary(b) {
                Some(e) => e,
                None => {
                    return None;
                },
            };
            out.push(1u8);
            append_bytes(&mut out, &enc);
            proof {
                assert(out@ =~= seq![1u8] + enc_binary(b@));
            }
            Some(out)
        },
    }
}

/// Encodes an optional string; `None` when the string overruns the format.
pub fn encode_option_string(s: &Option<String>) -> (r: Option<Vec<u8>>)
    ensures
        match r {
            Some(out) => (match s {
                Some(t) => string_fits(t@) && out@ == enc_opt_string(Some(t@)),
                None => out@ == enc_opt_string(None),
            }),
            None => s matches Some(t) && !string_fits(t@),
        },
{
    let mut out: Vec<u8> = Vec::new();
    match s {
        None => {
            out.push(0u8);
            proof {
                assert(out@ =~= seq![0u8]);
            }
            Some(out)
        },
        Some(t) => {
            let enc = match encode_string(t) {
                Some(e) => e,
                None => {
                    return None;
                },
            };
            out.push(1u8);
            append_bytes(&mut out, &enc);
            proof {
                assert(out@ =~= seq![1u8] + enc_string(t@));
            }
            Some(out)
        },
    }
}

/// Maps a finished call to its boundary output.  Success encodes the
/// optional returned value; failure writes the message and encodes the
/// absent value.  A value too long for the format degrades to an empty
/// payload.
pub fn dispatch_call_result(r: Result<Option<Vec<u8>>, LinkError>) -> (out: BoundaryOutput)
    ensures
        r matches Ok(v) ==> {
            &&& out.error is None
            &&& (v matches Some(b) ==> {
                &&& binary_fits(b@) ==> out.payload@ == enc_opt_binary(Some(b@))
                &&& !binary_fits(b@) ==> out.payload@ == Seq::<u8>::empty()
            })
            &&& (v is None ==> out.payload@ == enc_opt_binary(None))
        },
        r matches Err(e) ==> {
            &&& out.error matches Some(m) && m@ == e.message_view()
            &&& out.payload@ == enc_opt_binary(None)
        },
{
    match r {
        Ok(v) => {
            let payload = match encode_option_binary(&v) {
                Some(p) => p,
                None => Vec::new(),
            };
            BoundaryOutput { payload, error: None }
        },
        Err(e) => {
            let message = e.message();
            let mut payload: Vec<u8> = Vec::new();
            payload.push(0u8);
            proof {
                assert(payload@ =~= seq![0u8]);
            }
            BoundaryOutput { payload, error: Some(message) }
        },
    }
}

/// Maps a finished validation to its boundary output, as
/// `dispatch_call_result` does for a call.
pub fn dispatch_validate_result(r: Result<Option<String>, LinkError>) -> (out: BoundaryOutput)
    ensures
        r matches Ok(v) ==> {
            &&& out.error is None
            &&& (v matches Some(t) ==> {
                &&& string_fits(t@) ==> out.payload@ == enc_opt_string(Some(t@))
                &&& !string_fits(t@) ==> out.payload@ == Seq::<u8>::empty()
            })
            &&& (v is None ==> out.payload@ == enc_opt_string(None))
        },
        r matches Err(e) ==> {
            &&& out.error matches Some(m) && m@ == e.message_view()
            &&& out.payload@ == enc_opt_string(None)
        },
{
    match r {
        Ok(v) => {
            let payload = match encode_option_string(&v) {
                Some(p) => p,
                None => Vec::new(),
            };
            BoundaryOutput { payload, error: None }
        },
        Err(e) => {
            let message = e.message();
            let mut payload: Vec<u8> = Vec::new();
            payload.push(0u8);
            proof {
                assert(payload@ =~= seq![0u8]);
            }
            BoundaryOutput { payload, error: Some(message) }
        },
    }
}

} // verus!
