//! Decoding and classifying the captured output of one expansion run.
//!
//! The driver's standard output and standard error are captured whole, as
//! bytes. Both must decode as UTF-8 text; a run whose standard output decodes
//! to nothing is a failed compilation, whatever its exit status, and its
//! standard-error text is the diagnostic to show; otherwise the decoded
//! standard output is the expanded source.

use crate::error::Error;
use vstd::prelude::*;
use vstd::string::StringSliceAdditionalSpecFns;
use vstd::utf8::decode_utf8;
use vstd::utf8::encode_utf8_decode_utf8;
use vstd::utf8::valid_utf8;

verus! {

/// Relies on std's str::from_utf8: it returns the string slice viewing
/// exactly the input bytes when they are valid UTF-8, and the decoding error
/// otherwise.
#[verifier::external_body]
fn bytes_as_text(bytes: &[u8]) -> (r: Result<&str, std::str::Utf8Error>)
    ensures
        r is Ok <==> valid_utf8(bytes@),
        r matches Ok(text) ==> text.spec_bytes() == bytes@,
{
    std::str::from_utf8(bytes)
}

/// Decodes one captured stream into owned text.
fn decode_stream(bytes: &Vec<u8>) -> (r: Result<String, std::str::Utf8Error>)
    ensures
        r is Ok <==> valid_utf8(bytes@),
        r matches Ok(text) ==> text@ == decode_utf8(bytes@),
{
    match bytes_as_text(bytes.as_slice()) {
        Ok(text) => {
            proof {
                encode_utf8_decode_utf8(text@);
            }
            Ok(text.to_owned())
        },
        Err(err) => Err(err),
    }
}

/// Classifies the captured output streams of one finished expansion run:
/// the decoded standard output is the expanded source, unless it is empty,
/// in which case the run counts as a failed compilation and the decoded
/// standard-error text is the diagnostic; a stream that is not valid UTF-8
/// fails the run outright, and no partially decoded text is ever returned.
pub fn classify_output(stdout: &Vec<u8>, stderr: &Vec<u8>) -> (r: Result<String, Error>)
    ensures
        !valid_utf8(stdout@) || !valid_utf8(stderr@) ==> (r matches Err(e) && e is Utf8),
        valid_utf8(stdout@) && valid_utf8(stderr@) && stdout@.len() == 0 ==> (r matches Err(e)
            && e matches Error::Compile(diag) && diag@ == decode_utf8(stderr@)),
        valid_utf8(stdout@) && valid_utf8(stderr@) && stdout@.len() > 0 ==> (r matches Ok(text)
            && text@ == decode_utf8(stdout@)),
{
    let src = match decode_stream(stdout) {
        Ok(text) => text,
        Err(err) => {
            return Err(Error::Utf8(err));
        },
    };
    let diagnostics = match decode_stream(stderr) {
        Ok(text) => text,
        Err(err) => {
            return Err(Error::Utf8(err));
        },
    };
    if stdout.len() == 0 {
        Err(Error::Compile(diagnostics))
    } else {
        Ok(src)
    }
}

/// Law: a valid UTF-8 stream decodes to empty text exactly when it holds no
/// bytes. So the empty-output test on the captured standard-output bytes and
/// on its decoded text picks out the same runs, and a compile failure carries
/// non-empty diagnostic text whenever the driver wrote anything to standard
/// error.
pub proof fn lemma_empty_decode(bytes: Seq<u8>)
    requires
        valid_utf8(bytes),
    ensures
        decode_utf8(bytes).len() == 0 <==> bytes.len() == 0,
{
}

} // verus!
