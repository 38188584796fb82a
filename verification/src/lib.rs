//! Decoder for the Intel SGX DCAP version 3 quote wire format: a fixed
//! 48-byte header, a 384-byte enclave report body, and a length-prefixed
//! ECDSA-P256 signature block whose innermost field is a tag-dispatched
//! certification-data block.
//!
//! The input is untrusted bytes. `Quote::parse` either decodes the whole
//! buffer or returns a typed error; it never panics, and the exact bytes
//! covered by the attestation signature are exposed unchanged through the
//! `signed_message` accessors.
use vstd::prelude::*;

pub mod laws;
pub mod parsers;
pub mod wire;

verus! {

/// Number of bytes in the fixed quote header.
pub const HEADER_SIZE: usize = 48;

/// Number of bytes in an enclave report body.
pub const REPORT_SIZE: usize = 384;

/// Why a byte buffer was rejected as a quote.
#[derive(Debug, Clone, Copy, PartialEq, Eq, Structural)]
pub enum ParseError {
    /// Fewer bytes remained than a field or length-prefixed region requires.
    TooShort,
    /// The certification-data type tag is outside the valid set {1, 2, 3, 5}.
    InvalidCertificationDataType,
    /// Bytes remained after the top-level structure was fully decoded.
    TrailingData,
}

/// A decoded quote header. A 4-byte reserved region and the internal
/// attestation-key-type tag are consumed during decoding but not retained.
#[derive(Debug, Clone, PartialEq)]
pub struct Header {
    pub version: u16,
    pub qe_svn: u16,
    pub pce_svn: u16,
    pub qe_vendor_id: Vec<u8>,
    pub user_data: Vec<u8>,
}

impl View for Header {
    type V = wire::SpecHeader;

    open spec fn view(&self) -> wire::SpecHeader {
        wire::SpecHeader {
            version: self.version,
            qe_svn: self.qe_svn,
            pce_svn: self.pce_svn,
            qe_vendor_id: self.qe_vendor_id@,
            user_data: self.user_data@,
        }
    }
}

/// A decoded enclave report body. Four reserved regions are skipped and not
/// retained; `signed_message` keeps the exact 384-byte span the body was
/// decoded from, reserved bytes included.
#[derive(Debug, Clone, PartialEq)]
pub struct ReportBody {
    pub cpu_svn: Vec<u8>,
    pub miscselect: u32,
    pub attributes: Vec<u8>,
    pub mrenclave: Vec<u8>,
    pub mrsigner: Vec<u8>,
    pub isv_prod_id: u16,
    pub isv_svn: u16,
    pub report_data: Vec<u8>,
    signed_message: Vec<u8>,
}

impl View for ReportBody {
    type V = wire::SpecReportBody;

    closed spec fn view(&self) -> wire::SpecReportBody {
        wire::SpecReportBody {
            cpu_svn: self.cpu_svn@,
            miscselect: self.miscselect,
            attributes: self.attributes@,
            mrenclave: self.mrenclave@,
            mrsigner: self.mrsigner@,
            isv_prod_id: self.isv_prod_id,
            isv_svn: self.isv_svn,
            report_data: self.report_data@,
            signed_message: self.signed_message@,
        }
    }
}

impl ReportBody {
    /// Builds a report body from its decoded fields and the span it was
    /// decoded from; used only by the readers in `parsers`.
    pub(crate) fn new(
        cpu_svn: Vec<u8>,
        miscselect: u32,
        attributes: Vec<u8>,
        mrenclave: Vec<u8>,
        mrsigner: Vec<u8>,
        isv_prod_id: u16,
        isv_svn: u16,
        report_data: Vec<u8>,
        signed_message: Vec<u8>,
    ) -> (r: ReportBody)
        ensures
            r@ == (wire::SpecReportBody {
                cpu_svn: cpu_svn@,
                miscselect: miscselect,
                attributes: attributes@,
                mrenclave: mrenclave@,
                mrsigner: mrsigner@,
                isv_prod_id: isv_prod_id,
                isv_svn: isv_svn,
                report_data: report_data@,
                signed_message: signed_message@,
            }),
    {
        ReportBody {
            cpu_svn,
            miscselect,
            attributes,
            mrenclave,
            mrsigner,
            isv_prod_id,
            isv_svn,
            report_data,
            signed_message,
        }
    }

    /// The part of this report body that is covered by its signature: the
    /// exact 384-byte span it was decoded from.
    pub fn signed_message(&self) -> (r: &[u8])
        ensures
            r@ == self@.signed_message,
    {
        self.signed_message.as_slice()
    }
}

/// A decoded Platform Provisioning ID: always 384 bytes of payload, the
/// variant selecting only how a consumer must interpret them.
#[derive(Debug, Clone, PartialEq)]
pub enum Ppid {
    Clear(Vec<u8>),
    Enc2048(Vec<u8>),
    Enc3072(Vec<u8>),
}

impl View for Ppid {
    type V = wire::SpecPpid;

    open spec fn view(&self) -> wire::SpecPpid {
        match self {
            Ppid::Clear(p) => wire::SpecPpid::Clear(p@),
            Ppid::Enc2048(p) => wire::SpecPpid::Enc2048(p@),
            Ppid::Enc3072(p) => wire::SpecPpid::Enc3072(p@),
        }
    }
}

/// A decoded certification-data block: one of the PPID forms, or an opaque
/// certificate chain.
#[derive(Debug, Clone, PartialEq)]
pub enum QeCertificationData {
    Ppid { ppid: Ppid, cpu_svn: Vec<u8>, pce_svn: u16, pce_id: u16 },
    CertChain(Vec<u8>),
}

impl View for QeCertificationData {
    type V = wire::SpecCertData;

    open spec fn view(&self) -> wire::SpecCertData {
        match self {
            QeCertificationData::Ppid { ppid, cpu_svn, pce_svn, pce_id } => {
                wire::SpecCertData::Ppid {
                    ppid: ppid@,
                    cpu_svn: cpu_svn@,
                    pce_svn: *pce_svn,
                    pce_id: *pce_id,
                }
            },
            QeCertificationData::CertChain(c) => wire::SpecCertData::CertChain(c@),
        }
    }
}

/// A decoded signature block. One variant exists today; the enum is open so
/// future attestation-key types can be added without changing decode logic.
#[derive(Debug, Clone, PartialEq)]
pub enum Signature {
    EcdsaP256 {
        isv_report_signature: Vec<u8>,
        attestation_key: Vec<u8>,
        qe_report: ReportBody,
        qe_report_signature: Vec<u8>,
        qe_authentication_data: Vec<u8>,
        qe_certification_data: QeCertificationData,
    },
}

impl View for Signature {
    type V = wire::SpecSignature;

    open spec fn view(&self) -> wire::SpecSignature {
        match self {
            Signature::EcdsaP256 {
                isv_report_signature,
                attestation_key,
                qe_report,
                qe_report_signature,
                qe_authentication_data,
                qe_certification_data,
            } => {
                wire::SpecSignature::EcdsaP256 {
                    isv_report_signature: isv_report_signature@,
                    attestation_key: attestation_key@,
                    qe_report: qe_report@,
                    qe_report_signature: qe_report_signature@,
                    qe_authentication_data: qe_authentication_data@,
                    qe_certification_data: qe_certification_data@,
                }
            },
        }
    }
}

/// A decoded Intel SGX version 3 quote. A value exists only if the whole
/// input buffer was consumed by decoding.
#[derive(Debug, Clone, PartialEq)]
pub struct Quote {
    pub header: Header,
    pub isv_report: ReportBody,
    pub signature: Signature,
    signed_message: Vec<u8>,
}

impl View for Quote {
    type V = wire::SpecQuote;

    closed spec fn view(&self) -> wire::SpecQuote {
        wire::SpecQuote {
            header: self.header@,
            isv_report: self.isv_report@,
            signature: self.signature@,
            signed_message: self.signed_message@,
        }
    }
}

impl Quote {
    /// Builds a quote from its decoded parts and the span covered by the
    /// attestation-key signature; used only by the readers in `parsers`.
    pub(crate) fn new(
        header: Header,
        isv_report: ReportBody,
        signature: Signature,
        signed_message: Vec<u8>,
    ) -> (r: Quote)
        ensures
            r@ == (wire::SpecQuote {
                header: header@,
                isv_report: isv_report@,
                signature: signature@,
                signed_message: signed_message@,
            }),
    {
        Quote { header, isv_report, signature, signed_message }
    }

    /// Decodes a quote from untrusted bytes.
    ///
    /// Succeeds exactly on well-formed buffers, returning the values the
    /// wire model decodes; on every other input it returns the exact error
    /// the model assigns, so it never panics, whatever the input.
    pub fn parse(quote_bytes: &[u8]) -> (r: Result<Quote, ParseError>)
        ensures
            wire::quote_wf(quote_bytes@) <==> r is Ok,
            r is Ok ==> r->Ok_0@ == wire::spec_quote(quote_bytes@),
            r is Err ==> r->Err_0 == wire::quote_error(quote_bytes@),
    {
        parsers::parse_quote(quote_bytes)
    }

    /// The part of the quote covered by the attestation-key signature:
    /// the exact bytes of the header and the primary report, `[0, 432)` of
    /// the decoded input.
    pub fn signed_message(&self) -> (r: &[u8])
        ensures
            r@ == self@.signed_message,
    {
        self.signed_message.as_slice()
    }
}

} // verus!
