//! Laws of the conversion, stated over its specification.

use vstd::prelude::*;
use crate::codec::decodable;
use crate::pipeline::{
    conversion, format_of_token, lower_of, requested_format, requested_level, ConvertError,
    Format,
};

verus! {

/// A quality below zero acts as zero, and one above 100 hundredths acts as 100.
pub proof fn lemma_quality_saturates(data: Seq<u8>, format: Option<String>, quality: i64)
    ensures
        quality < 0 ==> conversion(data, requested_format(format), requested_level(Some(quality)))
            == conversion(data, requested_format(format), requested_level(Some(0))),
        quality > 100 ==> conversion(data, requested_format(format), requested_level(Some(quality)))
            == conversion(data, requested_format(format), requested_level(Some(100))),
{
}

/// Two format tokens that lowercase alike give the same result.
pub proof fn lemma_token_case_insensitive(
    data: Seq<u8>,
    a: String,
    b: String,
    quality: Option<i64>,
)
    requires
        lower_of(a@) == lower_of(b@),
    ensures
        conversion(data, requested_format(Some(a)), requested_level(quality)) == conversion(
            data,
            requested_format(Some(b)),
            requested_level(quality),
        ),
{
}

/// A token that names no supported format fails as unsupported, whatever the
/// input and the quality.
pub proof fn lemma_unknown_token_unsupported(data: Seq<u8>, token: String, quality: Option<i64>)
    requires
        format_of_token(lower_of(token@)) is None,
    ensures
        conversion(data, requested_format(Some(token)), requested_level(quality)) == Err::<
            Seq<u8>,
            ConvertError,
        >(ConvertError::UnsupportedFormat),
{
}

/// Without a format and a quality, the conversion is the one to WebP at 80
/// hundredths, as asked for by any token that lowercases to `webp`.
pub proof fn lemma_defaults_are_webp_80(data: Seq<u8>, token: String)
    requires
        lower_of(token@) == seq!['w', 'e', 'b', 'p'],
    ensures
        conversion(data, requested_format(None), requested_level(None)) == conversion(
            data,
            Some(Format::WebP),
            80,
        ),
        conversion(data, requested_format(None), requested_level(None)) == conversion(
            data,
            requested_format(Some(token)),
            requested_level(Some(80)),
        ),
{
}

/// Input that the codec cannot decode fails with a decode error once the
/// format is supported.
pub proof fn lemma_undecodable_input(data: Seq<u8>, format: Option<String>, quality: Option<i64>)
    requires
        !decodable(data),
        requested_format(format) is Some,
    ensures
        conversion(data, requested_format(format), requested_level(quality)) == Err::<
            Seq<u8>,
            ConvertError,
        >(ConvertError::Decode),
{
}

} // verus!
