//! Properties of the wire model that hold of every quote, proved once and
//! for all: the exact spans behind the `signed_message` accessors, the
//! rejection of the reserved certification-data tag, the effect of
//! truncating, extending or mutating a buffer, and the structural
//! round trip between encoding and decoding.
use vstd::prelude::*;

use crate::wire;
use crate::ParseError;

verus! {

/// The signed message of a decoded quote is exactly the first 432 bytes of
/// the input, and both report bodies — the primary one and the nested QE
/// report — keep a signed message of exactly 384 bytes.
pub proof fn lemma_signed_message_lengths(s: Seq<u8>)
    requires
        wire::quote_wf(s),
    ensures
        wire::spec_quote(s).signed_message == s.subrange(0, 432),
        wire::spec_quote(s).signed_message.len() == 432,
        wire::spec_quote(s).isv_report.signed_message.len() == 384,
        wire::spec_quote(s).signature->qe_report.signed_message.len() == 384,
{
}

/// Certification-data tag 4 is reserved: a signature block that carries it
/// is rejected with `InvalidCertificationDataType`, whatever bytes follow
/// the tag.
pub proof fn lemma_reserved_cd_tag_rejected(t: Seq<u8>)
    requires
        t.len() >= 580 + wire::sig_auth_len(t),
        wire::sig_cd_type(t) == 4,
    ensures
        !wire::sig_wf(t),
        wire::sig_error(t) == ParseError::InvalidCertificationDataType,
{
}

/// The quote-level form: a quote whose signature block carries the reserved
/// certification-data tag is rejected with `InvalidCertificationDataType`.
pub proof fn lemma_reserved_cd_tag_rejected_quote(s: Seq<u8>)
    requires
        s.len() >= 436 + wire::quote_sig_len(s),
        wire::quote_sig_block(s).len() >= 580 + wire::sig_auth_len(wire::quote_sig_block(s)),
        wire::sig_cd_type(wire::quote_sig_block(s)) == 4,
    ensures
        !wire::quote_wf(s),
        wire::quote_error(s) == ParseError::InvalidCertificationDataType,
{
    lemma_reserved_cd_tag_rejected(wire::quote_sig_block(s));
}

/// Removing the last byte of a well-formed quote leaves too few bytes for
/// the declared signature block, so decoding fails with `TooShort`: no field
/// of the format is optional by absence.
pub proof fn lemma_truncated_quote_too_short(s: Seq<u8>)
    requires
        wire::quote_wf(s),
    ensures
        s.len() >= 1,
        !wire::quote_wf(s.subrange(0, s.len() - 1)),
        wire::quote_error(s.subrange(0, s.len() - 1)) == ParseError::TooShort,
{
    let s2 = s.subrange(0, s.len() - 1);
    assert(wire::quote_sig_block(s).len() == wire::quote_sig_len(s));
    assert(wire::quote_sig_len(s) >= 578);
    assert(wire::quote_sig_len(s2) == wire::quote_sig_len(s));
}

/// Appending a byte to a well-formed quote leaves the whole structure
/// decodable but one byte unconsumed, so decoding fails with
/// `TrailingData`.
pub proof fn lemma_appended_byte_trailing(s: Seq<u8>, b: u8)
    requires
        wire::quote_wf(s),
    ensures
        !wire::quote_wf(s.push(b)),
        wire::quote_error(s.push(b)) == ParseError::TrailingData,
{
    let s3 = s.push(b);
    assert(wire::quote_sig_len(s3) == wire::quote_sig_len(s));
    assert(wire::quote_sig_block(s3) =~= wire::quote_sig_block(s));
}

/// The first 432 bytes of a quote are unconstrained data: overwriting any
/// one of them keeps the buffer a well-formed quote, leaves the signature
/// untouched, and changes only the signed message, whose length stays 432.
pub proof fn lemma_signed_region_unconstrained(s: Seq<u8>, i: int, b: u8)
    requires
        wire::quote_wf(s),
        0 <= i < 432,
    ensures
        wire::quote_wf(s.update(i, b)),
        wire::spec_quote(s.update(i, b)).signed_message == s.subrange(0, 432).update(i, b),
        wire::spec_quote(s.update(i, b)).signed_message.len() == 432,
        wire::spec_quote(s.update(i, b)).signature == wire::spec_quote(s).signature,
{
    let s4 = s.update(i, b);
    assert(wire::quote_sig_len(s4) == wire::quote_sig_len(s));
    assert(wire::quote_sig_block(s4) =~= wire::quote_sig_block(s));
    assert(s4.subrange(0, 432) =~= s.subrange(0, 432).update(i, b));
}

/// A little-endian 16-bit read recovers the value whose two bytes stand at
/// offset `i`.
proof fn lemma_le16_pair(s: Seq<u8>, i: int, x: u16)
    requires
        0 <= i,
        i + 2 <= s.len(),
        s[i] == (x % 0x100) as u8,
        s[i + 1] == (x / 0x100) as u8,
    ensures
        wire::le16(s, i) == x,
{
}

/// A little-endian 32-bit read recovers the value whose four bytes stand at
/// offset `i`.
proof fn lemma_le32_quad(s: Seq<u8>, i: int, x: u32)
    requires
        0 <= i,
        i + 4 <= s.len(),
        s[i] == (x % 0x100) as u8,
        s[i + 1] == (x / 0x100 % 0x100) as u8,
        s[i + 2] == (x / 0x100 / 0x100 % 0x100) as u8,
        s[i + 3] == (x / 0x100 / 0x100 / 0x100) as u8,
    ensures
        wire::le32(s, i) == x,
{
}

/// Encoding a well-formed certification-data value and decoding it under
/// its own tag yields the value back.
pub proof fn lemma_cd_round_trip(c: wire::SpecCertData)
    requires
        wire::cd_value_wf(c),
    ensures
        wire::spec_valid_cd_type(wire::cd_tag_of(c)),
        wire::cd_wf(wire::cd_tag_of(c), wire::encode_cd(c)),
        wire::spec_cd(wire::cd_tag_of(c), wire::encode_cd(c)) == c,
{
    let tag = wire::cd_tag_of(c);
    let e = wire::encode_cd(c);
    match c {
        wire::SpecCertData::Ppid { ppid, cpu_svn, pce_svn, pce_id } => {
            let pp = wire::ppid_payload(ppid);
            assert(e.len() == 404);
            assert(e.subrange(0, 384) =~= pp);
            assert(e.subrange(384, 400) =~= cpu_svn);
            lemma_le16_pair(e, 400, pce_svn);
            lemma_le16_pair(e, 402, pce_id);
            match ppid {
                wire::SpecPpid::Clear(_) => {
                    assert(wire::spec_ppid(tag, e) == ppid);
                },
                wire::SpecPpid::Enc2048(_) => {
                    assert(wire::spec_ppid(tag, e) == ppid);
                },
                wire::SpecPpid::Enc3072(_) => {
                    assert(wire::spec_ppid(tag, e) == ppid);
                },
            }
        },
        wire::SpecCertData::CertChain(_) => {},
    }
}

/// Encoding a well-formed signature value and decoding the block yields the
/// value back.
pub proof fn lemma_sig_round_trip(sig: wire::SpecSignature)
    requires
        wire::sig_value_wf(sig),
    ensures
        wire::sig_wf(wire::encode_signature(sig)),
        wire::spec_signature(wire::encode_signature(sig)) == sig,
{
    let e = wire::encode_signature(sig);
    let alen = sig->qe_authentication_data.len() as int;
    let cd = sig->qe_certification_data;
    let clen = wire::encode_cd(cd).len() as int;
    assert(e.len() == 584 + alen + clen);
    lemma_le16_pair(e, 576, sig->qe_authentication_data.len() as u16);
    assert(wire::sig_auth_len(e) == alen);
    lemma_le16_pair(e, 578 + alen, wire::cd_tag_of(cd));
    assert(wire::sig_cd_type(e) == wire::cd_tag_of(cd));
    lemma_le32_quad(e, 580 + alen, wire::encode_cd(cd).len() as u32);
    assert(wire::sig_cd_len(e) == clen);
    assert(wire::sig_cd_payload(e) =~= wire::encode_cd(cd));
    lemma_cd_round_trip(cd);
    assert(e.subrange(0, 64) =~= sig->isv_report_signature);
    assert(e.subrange(64, 128) =~= sig->attestation_key);
    assert(e.subrange(128, 512) =~= sig->qe_report.signed_message);
    assert(e.subrange(512, 576) =~= sig->qe_report_signature);
    assert(e.subrange(578, 578 + alen) =~= sig->qe_authentication_data);
    assert(wire::spec_report_body(e.subrange(128, 512)) == sig->qe_report);
}

/// A report body decoded from a 384-byte span is consistent with that span:
/// decoding the span it keeps yields the body itself.
pub proof fn lemma_decoded_report_body_value_wf(b: Seq<u8>)
    requires
        b.len() == 384,
    ensures
        wire::report_body_value_wf(wire::spec_report_body(b)),
{
    assert(wire::spec_report_body(b).signed_message =~= b);
}

/// Every quote decoded from a well-formed buffer is a well-formed quote
/// value; together with `lemma_quote_round_trip` this closes the loop: what
/// decoding produced, encoding and decoding again reproduces.
pub proof fn lemma_decoded_quote_value_wf(s: Seq<u8>)
    requires
        wire::quote_wf(s),
    ensures
        wire::quote_value_wf(wire::spec_quote(s)),
{
    let q = wire::spec_quote(s);
    let sm = s.subrange(0, 432);
    assert(sm.subrange(12, 28) =~= s.subrange(12, 28));
    assert(sm.subrange(28, 48) =~= s.subrange(28, 48));
    assert(wire::spec_header(sm) == q.header);
    lemma_decoded_report_body_value_wf(s.subrange(48, 432));
    assert(q.isv_report.signed_message =~= sm.subrange(48, 432));
    let t = wire::quote_sig_block(s);
    lemma_decoded_report_body_value_wf(t.subrange(128, 512));
    let p = wire::sig_cd_payload(t);
    let cd = wire::spec_cd(wire::sig_cd_type(t), p);
    if wire::sig_cd_type(t) == 5 {
        assert(wire::encode_cd(cd).len() == wire::sig_cd_len(t));
    } else {
        assert(p.subrange(0, 384).len() == 384);
        assert(wire::encode_cd(cd).len() == wire::sig_cd_len(t));
    }
    assert(wire::encode_signature(q.signature).len() == 584 + wire::sig_auth_len(t)
        + wire::sig_cd_len(t));
}

/// Encoding a well-formed quote value and parsing the buffer yields the
/// value back, and the value's signed message is exactly the first 432
/// bytes of that buffer: parsing round-trips structurally.
pub proof fn lemma_quote_round_trip(q: wire::SpecQuote)
    requires
        wire::quote_value_wf(q),
    ensures
        wire::quote_wf(wire::encode_quote(q)),
        wire::spec_quote(wire::encode_quote(q)) == q,
        q.signed_message == wire::encode_quote(q).subrange(0, 432),
{
    let e = wire::encode_quote(q);
    let es = wire::encode_signature(q.signature);
    assert(e.len() == 436 + es.len());
    lemma_le32_quad(e, 432, es.len() as u32);
    assert(wire::quote_sig_len(e) == es.len());
    assert(wire::quote_sig_block(e) =~= es);
    lemma_sig_round_trip(q.signature);
    assert(e.subrange(0, 432) =~= q.signed_message);
    assert(e.subrange(48, 432) =~= q.signed_message.subrange(48, 432));
    assert(wire::spec_report_body(e.subrange(48, 432)) == q.isv_report);
    assert(e.subrange(12, 28) =~= q.signed_message.subrange(12, 28));
    assert(e.subrange(28, 48) =~= q.signed_message.subrange(28, 48));
    assert(wire::spec_header(e) == q.header);
}

} // verus!
