//! Inflating the compressed frames of the upstream.

use vstd::prelude::*;

verus! {

/// What a brotli stream inflates to: the text that it holds, or `None`
/// where the bytes are no brotli stream or what they hold is no UTF-8 text.
pub uninterp spec fn brotli_text(data: Seq<u8>) -> Option<Seq<char>>;

/// Inflates a brotli stream that holds UTF-8 text, by `Decompressor` of the
/// brotli crate read to its end. Where that fails, the error holds the
/// words of the failure.
#[verifier::external_body]
pub fn decompress_brotli(data: &[u8]) -> (r: Result<String, String>)
    ensures
        match r {
            Ok(text) => brotli_text(data@) == Some(text@),
            Err(_) => brotli_text(data@) is None,
        },
{
    let mut decompressor = brotli::Decompressor::new(data, 4096);
    let mut decompressed = String::new();
    match std::io::Read::read_to_string(&mut decompressor, &mut decompressed) {
        Ok(_) => Ok(decompressed),
        Err(error) => Err(error.to_string()),
    }
}

} // verus!
