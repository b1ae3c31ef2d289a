use vstd::prelude::*;

verus! {

/// The text that a byte sequence decodes to when every malformed UTF-8
/// sequence in it is replaced by U+FFFD.
pub uninterp spec fn lossy_text(bytes: Seq<u8>) -> Seq<char>;

/// Decodes what a tool wrote to one of its output streams, with
/// `String::from_utf8_lossy`: well-formed UTF-8 is kept, and each malformed
/// sequence becomes the replacement character U+FFFD.
///
/// The contract gives the decoded text a name and claims nothing else.
#[verifier::external_body]
pub(crate) fn decode(bytes: &Vec<u8>) -> (text: String)
    ensures
        text@ == lossy_text(bytes@),
{
    String::from_utf8_lossy(bytes).into_owned()
}

} // verus!
