//! Executable readers for the quote wire format.
//!
//! Each reader consumes a delimited region of the input and is specified
//! against the model in [`wire`](crate::wire): it succeeds exactly on the
//! byte sequences the model calls well formed, returns the values the model
//! decodes, and on every other input returns the exact error the model
//! assigns.
use vstd::prelude::*;
use vstd::slice::slice_index_get;
use vstd::slice::slice_subrange;
use vstd::slice::slice_to_vec;

use crate::wire;
use crate::Header;
use crate::HEADER_SIZE;
use crate::REPORT_SIZE;
use crate::ParseError;
use crate::Ppid;
use crate::QeCertificationData;
use crate::Quote;
use crate::ReportBody;
use crate::Signature;

verus! {

broadcast use vstd::slice::group_slice_axioms;

/// Reads the little-endian 16-bit field at offset `pos`.
fn read_le_u16(bytes: &[u8], pos: usize) -> (r: u16)
    requires
        pos + 2 <= bytes@.len(),
    ensures
        r == wire::le16(bytes@, pos as int),
{
    let _n: usize = bytes.len();  // brings the slice length into scope: the offsets below fit in usize
    let b0 = *slice_index_get(bytes, pos);
    let b1 = *slice_index_get(bytes, pos + 1);
    (b0 as u16) + (b1 as u16) * 0x100
}

/// Reads the little-endian 32-bit field at offset `pos`.
fn read_le_u32(bytes: &[u8], pos: usize) -> (r: u32)
    requires
        pos + 4 <= bytes@.len(),
    ensures
        r == wire::le32(bytes@, pos as int),
{
    let _n: usize = bytes.len();  // brings the slice length into scope: the offsets below fit in usize
    let b0 = *slice_index_get(bytes, pos);
    let b1 = *slice_index_get(bytes, pos + 1);
    let b2 = *slice_index_get(bytes, pos + 2);
    let b3 = *slice_index_get(bytes, pos + 3);
    (b0 as u32) + (b1 as u32) * 0x100 + (b2 as u32) * 0x10000 + (b3 as u32) * 0x1000000
}

/// Whether `t` is a valid certification-data type tag.
pub fn is_valid_cd_type(t: u16) -> (r: bool)
    ensures
        r == wire::spec_valid_cd_type(t),
{
    t >= 1 && t <= 5 && t != 4
}

/// Decodes the 48-byte header region, returning the header and the
/// attestation-key-type tag used to dispatch the signature reader.
fn parse_header(h: &[u8]) -> (r: (Header, u16))
    requires
        h@.len() == 48,
    ensures
        r.0@ == wire::spec_header(h@),
        r.1 == wire::spec_ak_type(h@),
{
    let version = read_le_u16(h, 0);
    let ak_type = read_le_u16(h, 2);
    let qe_svn = read_le_u16(h, 8);
    let pce_svn = read_le_u16(h, 10);
    let qe_vendor_id = slice_to_vec(slice_subrange(h, 12, 28));
    let user_data = slice_to_vec(slice_subrange(h, 28, 48));
    (Header { version, qe_svn, pce_svn, qe_vendor_id, user_data }, ak_type)
}

/// Decodes a 384-byte report body region, keeping the whole span as the
/// body's signed message.
fn parse_report_body(b: &[u8]) -> (r: ReportBody)
    requires
        b@.len() == 384,
    ensures
        r@ == wire::spec_report_body(b@),
{
    let cpu_svn = slice_to_vec(slice_subrange(b, 0, 16));
    let miscselect = read_le_u32(b, 16);
    let attributes = slice_to_vec(slice_subrange(b, 48, 64));
    let mrenclave = slice_to_vec(slice_subrange(b, 64, 96));
    let mrsigner = slice_to_vec(slice_subrange(b, 128, 160));
    let isv_prod_id = read_le_u16(b, 256);
    let isv_svn = read_le_u16(b, 258);
    let report_data = slice_to_vec(slice_subrange(b, 320, 384));
    let signed_message = slice_to_vec(slice_subrange(b, 0, 384));
    ReportBody::new(
        cpu_svn,
        miscselect,
        attributes,
        mrenclave,
        mrsigner,
        isv_prod_id,
        isv_svn,
        report_data,
        signed_message,
    )
}

/// Decodes a certification-data payload under its type tag. The tag is
/// re-checked here so the contract covers every tag value; the signature
/// reader has already validated it in read order.
pub fn parse_qe_cd(kind: u16, p: &[u8]) -> (r: Result<QeCertificationData, ParseError>)
    ensures
        !wire::spec_valid_cd_type(kind) ==> r is Err && r->Err_0
            == ParseError::InvalidCertificationDataType,
        wire::spec_valid_cd_type(kind) && wire::cd_wf(kind, p@) ==> r is Ok && r->Ok_0@
            == wire::spec_cd(kind, p@),
        wire::spec_valid_cd_type(kind) && !wire::cd_wf(kind, p@) ==> r is Err && r->Err_0
            == wire::cd_error(kind, p@),
{
    if !is_valid_cd_type(kind) {
        return Err(ParseError::InvalidCertificationDataType);
    }
    if kind == 5 {
        return Ok(QeCertificationData::CertChain(slice_to_vec(p)));
    }
    if p.len() < 404 {
        return Err(ParseError::TooShort);
    }
    if p.len() > 404 {
        return Err(ParseError::TrailingData);
    }
    let ppid_bytes = slice_to_vec(slice_subrange(p, 0, 384));
    let ppid = if kind == 1 {
        Ppid::Clear(ppid_bytes)
    } else if kind == 2 {
        Ppid::Enc2048(ppid_bytes)
    } else {
        Ppid::Enc3072(ppid_bytes)
    };
    let cpu_svn = slice_to_vec(slice_subrange(p, 384, 400));
    let pce_svn = read_le_u16(p, 400);
    let pce_id = read_le_u16(p, 402);
    Ok(QeCertificationData::Ppid { ppid, cpu_svn, pce_svn, pce_id })
}

/// Decodes a signature block that an outer length prefix has delimited.
/// The attestation-key-type tag is accepted for dispatch, but the one
/// implemented variant is attempted whatever its value — a deliberate,
/// permissive decision point where future variants would branch.
pub fn parse_signature(t: &[u8], _attestation_key_type: u16) -> (r: Result<
    Signature,
    ParseError,
>)
    ensures
        wire::sig_wf(t@) <==> r is Ok,
        r is Ok ==> r->Ok_0@ == wire::spec_signature(t@),
        r is Err ==> r->Err_0 == wire::sig_error(t@),
{
    if t.len() < 578 {
        return Err(ParseError::TooShort);
    }
    let isv_report_signature = slice_to_vec(slice_subrange(t, 0, 64));
    let attestation_key = slice_to_vec(slice_subrange(t, 64, 128));
    let qe_report = parse_report_body(slice_subrange(t, 128, 512));
    let qe_report_signature = slice_to_vec(slice_subrange(t, 512, 576));
    let auth_len = read_le_u16(t, 576) as usize;
    if auth_len > t.len() - 578 {
        return Err(ParseError::TooShort);
    }
    let qe_authentication_data = slice_to_vec(slice_subrange(t, 578, 578 + auth_len));
    if t.len() - 578 - auth_len < 2 {
        return Err(ParseError::TooShort);
    }
    let cd_type = read_le_u16(t, 578 + auth_len);
    if !is_valid_cd_type(cd_type) {
        return Err(ParseError::InvalidCertificationDataType);
    }
    if t.len() - 580 - auth_len < 4 {
        return Err(ParseError::TooShort);
    }
    let cd_len = read_le_u32(t, 580 + auth_len) as usize;
    if cd_len > t.len() - 584 - auth_len {
        return Err(ParseError::TooShort);
    }
    let payload = slice_subrange(t, 584 + auth_len, 584 + auth_len + cd_len);
    let qe_certification_data = match parse_qe_cd(cd_type, payload) {
        Ok(cd) => cd,
        Err(e) => {
            return Err(e);
        },
    };
    Ok(
        Signature::EcdsaP256 {
            isv_report_signature,
            attestation_key,
            qe_report,
            qe_report_signature,
            qe_authentication_data,
            qe_certification_data,
        },
    )
}

/// Decodes a whole quote: header, primary report, a 4-byte length prefix,
/// the signature block it delimits, and nothing after it.
pub fn parse_quote(input: &[u8]) -> (r: Result<Quote, ParseError>)
    ensures
        wire::quote_wf(input@) <==> r is Ok,
        r is Ok ==> r->Ok_0@ == wire::spec_quote(input@),
        r is Err ==> r->Err_0 == wire::quote_error(input@),
{
    if input.len() < 436 {
        return Err(ParseError::TooShort);
    }
    let (header, ak_type) = parse_header(slice_subrange(input, 0, HEADER_SIZE));
    proof {
        assert(input@.subrange(0, 48).subrange(12, 28) =~= input@.subrange(12, 28));
        assert(input@.subrange(0, 48).subrange(28, 48) =~= input@.subrange(28, 48));
    }
    let isv_report = parse_report_body(slice_subrange(input, HEADER_SIZE, HEADER_SIZE + REPORT_SIZE));
    let sig_len = read_le_u32(input, 432) as usize;
    if sig_len > input.len() - 436 {
        return Err(ParseError::TooShort);
    }
    let sig_block = slice_subrange(input, 436, 436 + sig_len);
    let signature = match parse_signature(sig_block, ak_type) {
        Ok(s) => s,
        Err(e) => {
            return Err(e);
        },
    };
    if input.len() > 436 + sig_len {
        return Err(ParseError::TrailingData);
    }
    let signed_message = slice_to_vec(slice_subrange(input, 0, HEADER_SIZE + REPORT_SIZE));
    Ok(Quote::new(header, isv_report, signature, signed_message))
}

} // verus!
