//! Mathematical model of the quote wire format.
//!
//! Every structure of the format is described twice: a ghost record of the
//! values a region decodes to, and a well-formedness predicate saying when a
//! byte sequence holds that region. The executable readers in `parsers` are
//! specified against these functions, and `error` functions pin down exactly
//! which [`ParseError`](crate::ParseError) a malformed buffer produces.
use vstd::prelude::*;

use crate::ParseError;

verus! {

/// The value of the little-endian 16-bit field at offset `i` of `s`.
pub open spec fn le16(s: Seq<u8>, i: int) -> u16
    recommends
        0 <= i,
        i + 2 <= s.len(),
{
    (s[i] + s[i + 1] * 0x100) as u16
}

/// The value of the little-endian 32-bit field at offset `i` of `s`.
pub open spec fn le32(s: Seq<u8>, i: int) -> u32
    recommends
        0 <= i,
        i + 4 <= s.len(),
{
    (s[i] + s[i + 1] * 0x100 + s[i + 2] * 0x10000 + s[i + 3] * 0x1000000) as u32
}

/// Values decoded from a 48-byte quote header.
pub ghost struct SpecHeader {
    pub version: u16,
    pub qe_svn: u16,
    pub pce_svn: u16,
    pub qe_vendor_id: Seq<u8>,
    pub user_data: Seq<u8>,
}

/// Header layout: version(2) | attestation_key_type(2) | reserved(4) |
/// qe_svn(2) | pce_svn(2) | qe_vendor_id(16) | user_data(20).
pub open spec fn spec_header(s: Seq<u8>) -> SpecHeader
    recommends
        s.len() >= 48,
{
    SpecHeader {
        version: le16(s, 0),
        qe_svn: le16(s, 8),
        pce_svn: le16(s, 10),
        qe_vendor_id: s.subrange(12, 28),
        user_data: s.subrange(28, 48),
    }
}

/// The attestation-key-type tag of the header: consumed for signature-variant
/// dispatch, not retained on the decoded header.
pub open spec fn spec_ak_type(s: Seq<u8>) -> u16
    recommends
        s.len() >= 48,
{
    le16(s, 2)
}

/// Values decoded from a 384-byte enclave report body, together with the
/// exact byte span the body was decoded from.
pub ghost struct SpecReportBody {
    pub cpu_svn: Seq<u8>,
    pub miscselect: u32,
    pub attributes: Seq<u8>,
    pub mrenclave: Seq<u8>,
    pub mrsigner: Seq<u8>,
    pub isv_prod_id: u16,
    pub isv_svn: u16,
    pub report_data: Seq<u8>,
    pub signed_message: Seq<u8>,
}

/// Report body layout: cpu_svn(16) | miscselect(4) | reserved(28) |
/// attributes(16) | mrenclave(32) | reserved(32) | mrsigner(32) |
/// reserved(96) | isv_prod_id(2) | isv_svn(2) | reserved(60) |
/// report_data(64); 384 bytes in all. `signed_message` is the whole span,
/// reserved bytes included, never a reconstruction from the fields.
pub open spec fn spec_report_body(s: Seq<u8>) -> SpecReportBody
    recommends
        s.len() >= 384,
{
    SpecReportBody {
        cpu_svn: s.subrange(0, 16),
        miscselect: le32(s, 16),
        attributes: s.subrange(48, 64),
        mrenclave: s.subrange(64, 96),
        mrsigner: s.subrange(128, 160),
        isv_prod_id: le16(s, 256),
        isv_svn: le16(s, 258),
        report_data: s.subrange(320, 384),
        signed_message: s.subrange(0, 384),
    }
}

/// A 384-byte Platform Provisioning ID payload; the variant records only how
/// a consumer must interpret the bytes.
pub ghost enum SpecPpid {
    Clear(Seq<u8>),
    Enc2048(Seq<u8>),
    Enc3072(Seq<u8>),
}

/// Values decoded from a certification-data payload.
pub ghost enum SpecCertData {
    Ppid { ppid: SpecPpid, cpu_svn: Seq<u8>, pce_svn: u16, pce_id: u16 },
    CertChain(Seq<u8>),
}

/// Whether `tag` selects a certification-data variant: 1, 2 and 3 are the
/// PPID forms, 5 is a raw certificate chain, 4 is reserved and invalid.
pub open spec fn spec_valid_cd_type(tag: u16) -> bool {
    tag >= 1 && tag <= 5 && tag != 4
}

/// Whether the certification-data payload `p` is well formed under a valid
/// `tag`: the PPID forms are exactly ppid(384) | cpu_svn(16) | pce_svn(2) |
/// pce_id(2) = 404 bytes; a certificate chain is opaque, any length.
pub open spec fn cd_wf(tag: u16, p: Seq<u8>) -> bool
    recommends
        spec_valid_cd_type(tag),
{
    tag == 5 || p.len() == 404
}

/// The error a certification-data payload produces when it is not well
/// formed: too few bytes for the fixed PPID shape is `TooShort`, bytes left
/// over after it is `TrailingData`.
pub open spec fn cd_error(tag: u16, p: Seq<u8>) -> ParseError
    recommends
        spec_valid_cd_type(tag),
        !cd_wf(tag, p),
{
    if p.len() < 404 {
        ParseError::TooShort
    } else {
        ParseError::TrailingData
    }
}

/// The PPID payload of a well-formed PPID-form certification-data payload.
pub open spec fn spec_ppid(tag: u16, p: Seq<u8>) -> SpecPpid
    recommends
        spec_valid_cd_type(tag),
        tag != 5,
        p.len() == 404,
{
    if tag == 1 {
        SpecPpid::Clear(p.subrange(0, 384))
    } else if tag == 2 {
        SpecPpid::Enc2048(p.subrange(0, 384))
    } else {
        SpecPpid::Enc3072(p.subrange(0, 384))
    }
}

/// Values decoded from a well-formed certification-data payload.
pub open spec fn spec_cd(tag: u16, p: Seq<u8>) -> SpecCertData
    recommends
        spec_valid_cd_type(tag),
        cd_wf(tag, p),
{
    if tag == 5 {
        SpecCertData::CertChain(p)
    } else {
        SpecCertData::Ppid {
            ppid: spec_ppid(tag, p),
            cpu_svn: p.subrange(384, 400),
            pce_svn: le16(p, 400),
            pce_id: le16(p, 402),
        }
    }
}

/// Values decoded from a signature block; today the single ECDSA-P256
/// variant.
pub ghost enum SpecSignature {
    EcdsaP256 {
        isv_report_signature: Seq<u8>,
        attestation_key: Seq<u8>,
        qe_report: SpecReportBody,
        qe_report_signature: Seq<u8>,
        qe_authentication_data: Seq<u8>,
        qe_certification_data: SpecCertData,
    },
}

/// Signature block layout: isv_report_signature(64) | attestation_key(64) |
/// qe_report(384) | qe_report_signature(64) | auth_len(2) | auth_data(auth_len)
/// | cd_type(2) | cd_len(4) | cd_payload(cd_len). The fixed fields end at
/// offset 576; the authentication-data length field makes every later offset
/// depend on the block itself.
pub open spec fn sig_auth_len(t: Seq<u8>) -> int
    recommends
        t.len() >= 578,
{
    le16(t, 576) as int
}

/// The certification-data type tag of the signature block.
pub open spec fn sig_cd_type(t: Seq<u8>) -> u16
    recommends
        t.len() >= 580 + sig_auth_len(t),
{
    le16(t, 578 + sig_auth_len(t))
}

/// The declared length of the certification-data payload.
pub open spec fn sig_cd_len(t: Seq<u8>) -> int
    recommends
        t.len() >= 584 + sig_auth_len(t),
{
    le32(t, 580 + sig_auth_len(t)) as int
}

/// The certification-data payload of the signature block.
pub open spec fn sig_cd_payload(t: Seq<u8>) -> Seq<u8>
    recommends
        t.len() >= 584 + sig_auth_len(t) + sig_cd_len(t),
{
    t.subrange(584 + sig_auth_len(t), 584 + sig_auth_len(t) + sig_cd_len(t))
}

/// Whether `t` is a well-formed signature block. Bytes after the
/// certification-data payload, inside the span the outer length prefix
/// delimited, are permitted and discarded.
pub open spec fn sig_wf(t: Seq<u8>) -> bool {
    &&& t.len() >= 578
    &&& t.len() >= 580 + sig_auth_len(t)
    &&& spec_valid_cd_type(sig_cd_type(t))
    &&& t.len() >= 584 + sig_auth_len(t)
    &&& t.len() >= 584 + sig_auth_len(t) + sig_cd_len(t)
    &&& cd_wf(sig_cd_type(t), sig_cd_payload(t))
}

/// The error a malformed signature block produces, following the read order
/// of the block: the type tag is validated before the certification-data
/// length prefix is read.
pub open spec fn sig_error(t: Seq<u8>) -> ParseError
    recommends
        !sig_wf(t),
{
    if t.len() < 578 {
        ParseError::TooShort
    } else if t.len() < 580 + sig_auth_len(t) {
        ParseError::TooShort
    } else if !spec_valid_cd_type(sig_cd_type(t)) {
        ParseError::InvalidCertificationDataType
    } else if t.len() < 584 + sig_auth_len(t) {
        ParseError::TooShort
    } else if t.len() < 584 + sig_auth_len(t) + sig_cd_len(t) {
        ParseError::TooShort
    } else {
        cd_error(sig_cd_type(t), sig_cd_payload(t))
    }
}

/// Values decoded from a well-formed signature block.
pub open spec fn spec_signature(t: Seq<u8>) -> SpecSignature
    recommends
        sig_wf(t),
{
    SpecSignature::EcdsaP256 {
        isv_report_signature: t.subrange(0, 64),
        attestation_key: t.subrange(64, 128),
        qe_report: spec_report_body(t.subrange(128, 512)),
        qe_report_signature: t.subrange(512, 576),
        qe_authentication_data: t.subrange(578, 578 + sig_auth_len(t)),
        qe_certification_data: spec_cd(sig_cd_type(t), sig_cd_payload(t)),
    }
}

/// Values decoded from a whole quote, and the span covered by the
/// attestation-key signature: the header and the primary report.
pub ghost struct SpecQuote {
    pub header: SpecHeader,
    pub isv_report: SpecReportBody,
    pub signature: SpecSignature,
    pub signed_message: Seq<u8>,
}

/// The declared length of the signature block, read at offset 432.
pub open spec fn quote_sig_len(s: Seq<u8>) -> int
    recommends
        s.len() >= 436,
{
    le32(s, 432) as int
}

/// The signature block of the quote.
pub open spec fn quote_sig_block(s: Seq<u8>) -> Seq<u8>
    recommends
        s.len() >= 436 + quote_sig_len(s),
{
    s.subrange(436, 436 + quote_sig_len(s))
}

/// Whether `s` is a well-formed quote: header(48) | isv_report(384) |
/// sig_len(4) | signature block(sig_len), with nothing after it.
pub open spec fn quote_wf(s: Seq<u8>) -> bool {
    &&& s.len() >= 436
    &&& s.len() >= 436 + quote_sig_len(s)
    &&& sig_wf(quote_sig_block(s))
    &&& s.len() == 436 + quote_sig_len(s)
}

/// The error a malformed quote produces, following the read order: any
/// failure inside the signature block precedes the trailing-bytes check.
pub open spec fn quote_error(s: Seq<u8>) -> ParseError
    recommends
        !quote_wf(s),
{
    if s.len() < 436 {
        ParseError::TooShort
    } else if s.len() < 436 + quote_sig_len(s) {
        ParseError::TooShort
    } else if !sig_wf(quote_sig_block(s)) {
        sig_error(quote_sig_block(s))
    } else {
        ParseError::TrailingData
    }
}

/// Values decoded from a well-formed quote.
pub open spec fn spec_quote(s: Seq<u8>) -> SpecQuote
    recommends
        quote_wf(s),
{
    SpecQuote {
        header: spec_header(s),
        isv_report: spec_report_body(s.subrange(48, 432)),
        signature: spec_signature(quote_sig_block(s)),
        signed_message: s.subrange(0, 432),
    }
}

/// The two bytes of `x` in little-endian order.
pub open spec fn enc16(x: u16) -> Seq<u8> {
    seq![(x % 0x100) as u8, (x / 0x100) as u8]
}

/// The four bytes of `x` in little-endian order.
pub open spec fn enc32(x: u32) -> Seq<u8> {
    seq![
        (x % 0x100) as u8,
        (x / 0x100 % 0x100) as u8,
        (x / 0x100 / 0x100 % 0x100) as u8,
        (x / 0x100 / 0x100 / 0x100) as u8,
    ]
}

/// The payload bytes of a PPID, whichever interpretation the variant
/// selects.
pub open spec fn ppid_payload(p: SpecPpid) -> Seq<u8> {
    match p {
        SpecPpid::Clear(x) => x,
        SpecPpid::Enc2048(x) => x,
        SpecPpid::Enc3072(x) => x,
    }
}

/// The wire tag that selects the interpretation of a PPID.
pub open spec fn ppid_tag(p: SpecPpid) -> u16 {
    match p {
        SpecPpid::Clear(_) => 1,
        SpecPpid::Enc2048(_) => 2,
        SpecPpid::Enc3072(_) => 3,
    }
}

/// The wire tag of a certification-data value.
pub open spec fn cd_tag_of(c: SpecCertData) -> u16 {
    match c {
        SpecCertData::Ppid { ppid, .. } => ppid_tag(ppid),
        SpecCertData::CertChain(_) => 5,
    }
}

/// Whether the lengths inside a certification-data value fit its wire
/// shape: a PPID form carries exactly 384 + 16 payload bytes, a certificate
/// chain must fit the 32-bit length prefix that delimits it.
pub open spec fn cd_value_wf(c: SpecCertData) -> bool {
    match c {
        SpecCertData::Ppid { ppid, cpu_svn, .. } => {
            ppid_payload(ppid).len() == 384 && cpu_svn.len() == 16
        },
        SpecCertData::CertChain(chain) => chain.len() < 0x1_0000_0000,
    }
}

/// The certification-data payload a value writes back to the wire.
pub open spec fn encode_cd(c: SpecCertData) -> Seq<u8> {
    match c {
        SpecCertData::Ppid { ppid, cpu_svn, pce_svn, pce_id } => {
            ppid_payload(ppid) + cpu_svn + enc16(pce_svn) + enc16(pce_id)
        },
        SpecCertData::CertChain(chain) => chain,
    }
}

/// Whether a signature value is consistent with the wire shape: fixed-width
/// fields of the right length, a nested report body consistent with its own
/// span, authentication data that fits its 16-bit length prefix, and a
/// well-formed certification-data value.
pub open spec fn sig_value_wf(sig: SpecSignature) -> bool {
    &&& sig->isv_report_signature.len() == 64
    &&& sig->attestation_key.len() == 64
    &&& report_body_value_wf(sig->qe_report)
    &&& sig->qe_report_signature.len() == 64
    &&& sig->qe_authentication_data.len() < 0x10000
    &&& cd_value_wf(sig->qe_certification_data)
}

/// The signature block a signature value writes back to the wire.
pub open spec fn encode_signature(sig: SpecSignature) -> Seq<u8> {
    sig->isv_report_signature + sig->attestation_key + sig->qe_report.signed_message
        + sig->qe_report_signature + enc16(sig->qe_authentication_data.len() as u16)
        + sig->qe_authentication_data + enc16(cd_tag_of(sig->qe_certification_data)) + enc32(
        encode_cd(sig->qe_certification_data).len() as u32,
    ) + encode_cd(sig->qe_certification_data)
}

/// Whether a report-body value is consistent with the 384-byte span it
/// claims it was decoded from: decoding that span yields exactly this value.
pub open spec fn report_body_value_wf(r: SpecReportBody) -> bool {
    &&& r.signed_message.len() == 384
    &&& spec_report_body(r.signed_message) == r
}

/// Whether a quote value is consistent with the wire: its signed message is
/// a 432-byte span whose header region decodes to its header and whose
/// report region is the primary report's own span, its signature value is
/// well formed, and the signature block fits the 32-bit length prefix.
pub open spec fn quote_value_wf(q: SpecQuote) -> bool {
    &&& q.signed_message.len() == 432
    &&& q.header == spec_header(q.signed_message)
    &&& report_body_value_wf(q.isv_report)
    &&& q.isv_report.signed_message == q.signed_message.subrange(48, 432)
    &&& sig_value_wf(q.signature)
    &&& encode_signature(q.signature).len() < 0x1_0000_0000
}

/// The byte buffer a quote value writes back to the wire: its signed
/// message, the signature block's length, and the signature block.
pub open spec fn encode_quote(q: SpecQuote) -> Seq<u8> {
    q.signed_message + enc32(encode_signature(q.signature).len() as u32) + encode_signature(
        q.signature,
    )
}

} // verus!
