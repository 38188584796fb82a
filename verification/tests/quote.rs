use sgx_quote::ParseError;
use sgx_quote::Ppid;
use sgx_quote::QeCertificationData;
use sgx_quote::Quote;
use sgx_quote::Signature;
use sgx_quote::parsers::is_valid_cd_type;
use sgx_quote::parsers::parse_qe_cd;

/// A 384-byte report body region with recognizable field values.
fn report_body_bytes(seed: u8) -> Vec<u8> {
    let mut b: Vec<u8> = Vec::new();
    b.extend_from_slice(&[seed; 16]); // cpu_svn
    b.extend_from_slice(&0x0102_0304u32.to_le_bytes()); // miscselect
    b.extend_from_slice(&[0xE1; 28]); // reserved
    b.extend_from_slice(&[seed.wrapping_add(1); 16]); // attributes
    b.extend_from_slice(&[seed.wrapping_add(2); 32]); // mrenclave
    b.extend_from_slice(&[0xE2; 32]); // reserved
    b.extend_from_slice(&[seed.wrapping_add(3); 32]); // mrsigner
    b.extend_from_slice(&[0xE3; 96]); // reserved
    b.extend_from_slice(&0x1111u16.to_le_bytes()); // isv_prod_id
    b.extend_from_slice(&0x2222u16.to_le_bytes()); // isv_svn
    b.extend_from_slice(&[0xE4; 60]); // reserved
    b.extend_from_slice(&[seed.wrapping_add(4); 64]); // report_data
    assert_eq!(b.len(), 384);
    b
}

/// A 404-byte PPID-form certification-data payload.
fn ppid_cd_payload() -> Vec<u8> {
    let mut p: Vec<u8> = vec![0x50; 384]; // ppid
    p.extend_from_slice(&[0x51; 16]); // cpu_svn
    p.extend_from_slice(&0x3333u16.to_le_bytes()); // pce_svn
    p.extend_from_slice(&0x4444u16.to_le_bytes()); // pce_id
    assert_eq!(p.len(), 404);
    p
}

/// A signature block with the given authentication data and
/// certification-data block.
fn sig_block_bytes(auth: &[u8], cd_tag: u16, cd_payload: &[u8]) -> Vec<u8> {
    let mut s: Vec<u8> = Vec::new();
    s.extend_from_slice(&[0x61; 64]); // isv_report_signature
    s.extend_from_slice(&[0x62; 64]); // attestation_key
    s.extend_from_slice(&report_body_bytes(0x70)); // qe_report
    s.extend_from_slice(&[0x63; 64]); // qe_report_signature
    s.extend_from_slice(&(auth.len() as u16).to_le_bytes());
    s.extend_from_slice(auth);
    s.extend_from_slice(&cd_tag.to_le_bytes());
    s.extend_from_slice(&(cd_payload.len() as u32).to_le_bytes());
    s.extend_from_slice(cd_payload);
    s
}

/// A whole quote around the given signature block.
fn quote_bytes(version: u16, sig: &[u8]) -> Vec<u8> {
    let mut q: Vec<u8> = Vec::new();
    q.extend_from_slice(&version.to_le_bytes());
    q.extend_from_slice(&2u16.to_le_bytes()); // attestation_key_type
    q.extend_from_slice(&[0xE5; 4]); // reserved
    q.extend_from_slice(&0x0007u16.to_le_bytes()); // qe_svn
    q.extend_from_slice(&0x0008u16.to_le_bytes()); // pce_svn
    q.extend_from_slice(&[0xAA; 16]); // qe_vendor_id
    q.extend_from_slice(&[0xBB; 20]); // user_data
    q.extend_from_slice(&report_body_bytes(0x10));
    q.extend_from_slice(&(sig.len() as u32).to_le_bytes());
    q.extend_from_slice(sig);
    q
}

/// A well-formed quote with a PPID-form certification-data block.
fn sample_quote(version: u16) -> Vec<u8> {
    let sig = sig_block_bytes(&[0x41, 0x42, 0x43], 1, &ppid_cd_payload());
    quote_bytes(version, &sig)
}

#[test]
fn test_parse_v2_quote() {
    assert!(Quote::parse(&sample_quote(2)).is_ok());
}

#[test]
fn test_parse_field_values() {
    let bytes = sample_quote(3);
    let quote = Quote::parse(&bytes).unwrap();

    assert_eq!(quote.header.version, 3);
    assert_eq!(quote.header.qe_svn, 0x0007);
    assert_eq!(quote.header.pce_svn, 0x0008);
    assert_eq!(quote.header.qe_vendor_id, vec![0xAA; 16]);
    assert_eq!(quote.header.user_data, vec![0xBB; 20]);

    assert_eq!(quote.isv_report.cpu_svn, vec![0x10; 16]);
    assert_eq!(quote.isv_report.miscselect, 0x0102_0304);
    assert_eq!(quote.isv_report.attributes, vec![0x11; 16]);
    assert_eq!(quote.isv_report.mrenclave, vec![0x12; 32]);
    assert_eq!(quote.isv_report.mrsigner, vec![0x13; 32]);
    assert_eq!(quote.isv_report.isv_prod_id, 0x1111);
    assert_eq!(quote.isv_report.isv_svn, 0x2222);
    assert_eq!(quote.isv_report.report_data, vec![0x14; 64]);

    let Signature::EcdsaP256 {
        isv_report_signature,
        attestation_key,
        qe_report,
        qe_report_signature,
        qe_authentication_data,
        qe_certification_data,
    } = quote.signature;
    assert_eq!(isv_report_signature, vec![0x61; 64]);
    assert_eq!(attestation_key, vec![0x62; 64]);
    assert_eq!(qe_report.cpu_svn, vec![0x70; 16]);
    assert_eq!(qe_report.report_data, vec![0x74; 64]);
    assert_eq!(qe_report_signature, vec![0x63; 64]);
    assert_eq!(qe_authentication_data, vec![0x41, 0x42, 0x43]);
    let expected_cd = QeCertificationData::Ppid {
        ppid: Ppid::Clear(vec![0x50; 384]),
        cpu_svn: vec![0x51; 16],
        pce_svn: 0x3333,
        pce_id: 0x4444,
    };
    assert_eq!(qe_certification_data, expected_cd);
}

#[test]
fn test_signed_message_spans() {
    let bytes = sample_quote(3);
    let quote = Quote::parse(&bytes).unwrap();

    // The quote's signed message is byte-for-byte the first 432 bytes.
    assert_eq!(quote.signed_message(), &bytes[..432]);

    // Both report bodies keep their exact 384-byte spans, reserved bytes
    // included.
    assert_eq!(quote.isv_report.signed_message().len(), 384);
    assert_eq!(quote.isv_report.signed_message(), &bytes[48..432]);
    let Signature::EcdsaP256 { qe_report, .. } = &quote.signature;
    assert_eq!(qe_report.signed_message().len(), 384);
    assert_eq!(qe_report.signed_message(), &report_body_bytes(0x70)[..]);
}

#[test]
fn test_empty_input_too_short() {
    assert_eq!(Quote::parse(&[]), Err(ParseError::TooShort));
}

#[test]
fn test_short_inputs_too_short() {
    let bytes = sample_quote(3);
    for len in [1, 47, 48, 431, 432, 435] {
        assert_eq!(Quote::parse(&bytes[..len]), Err(ParseError::TooShort));
    }
}

#[test]
fn test_truncated_quote_too_short() {
    let mut bytes = sample_quote(3);
    bytes.pop();
    assert_eq!(Quote::parse(&bytes), Err(ParseError::TooShort));
}

#[test]
fn test_appended_byte_trailing_data() {
    let mut bytes = sample_quote(3);
    bytes.push(0x00);
    assert_eq!(Quote::parse(&bytes), Err(ParseError::TrailingData));
}

#[test]
fn test_mutating_signed_region_still_parses() {
    let bytes = sample_quote(3);
    let original = Quote::parse(&bytes).unwrap();
    assert_eq!(original.header.version, 3);
    assert_eq!(bytes.len(), 432 + 4 + sig_block_bytes(&[0x41, 0x42, 0x43], 1, &ppid_cd_payload()).len());

    // Header and report fields are unconstrained data: flipping any one of
    // the first 432 bytes keeps the quote structurally valid, changes the
    // signed message's content and preserves its length.
    for i in 0..432 {
        let mut mutated = bytes.clone();
        mutated[i] = mutated[i].wrapping_add(1);
        let quote = Quote::parse(&mutated).unwrap();
        assert_eq!(quote.signed_message().len(), 432);
        assert_eq!(quote.signed_message(), &mutated[..432]);
        assert_ne!(quote.signed_message(), original.signed_message());
    }
}

#[test]
fn test_cd_tag_four_rejected() {
    // Tag 4 is reserved: rejected even though the payload would form a
    // structurally valid PPID block under tags 1-3.
    let sig = sig_block_bytes(&[], 4, &ppid_cd_payload());
    let bytes = quote_bytes(3, &sig);
    assert_eq!(Quote::parse(&bytes), Err(ParseError::InvalidCertificationDataType));
}

#[test]
fn test_cd_tag_out_of_range_rejected() {
    for tag in [0u16, 6, 7, 0xFFFF] {
        let sig = sig_block_bytes(&[], tag, &ppid_cd_payload());
        let bytes = quote_bytes(3, &sig);
        assert_eq!(Quote::parse(&bytes), Err(ParseError::InvalidCertificationDataType));
    }
}

#[test]
fn test_cd_tag_one_payload_too_short() {
    let sig = sig_block_bytes(&[], 1, &ppid_cd_payload()[..403]);
    let bytes = quote_bytes(3, &sig);
    assert_eq!(Quote::parse(&bytes), Err(ParseError::TooShort));
}

#[test]
fn test_cd_tag_one_payload_too_long() {
    let mut payload = ppid_cd_payload();
    payload.push(0x00);
    let sig = sig_block_bytes(&[], 1, &payload);
    let bytes = quote_bytes(3, &sig);
    assert_eq!(Quote::parse(&bytes), Err(ParseError::TrailingData));
}

#[test]
fn test_cd_tag_five_empty_chain() {
    let sig = sig_block_bytes(&[], 5, &[]);
    let bytes = quote_bytes(3, &sig);
    let quote = Quote::parse(&bytes).unwrap();
    let Signature::EcdsaP256 { qe_certification_data, .. } = quote.signature;
    assert_eq!(qe_certification_data, QeCertificationData::CertChain(vec![]));
}

#[test]
fn test_cd_tag_five_keeps_chain_bytes() {
    let chain = vec![0x30, 0x82, 0x01, 0x02, 0x03];
    let sig = sig_block_bytes(&[0x99], 5, &chain);
    let bytes = quote_bytes(3, &sig);
    let quote = Quote::parse(&bytes).unwrap();
    let Signature::EcdsaP256 { qe_certification_data, .. } = quote.signature;
    assert_eq!(qe_certification_data, QeCertificationData::CertChain(chain));
}

#[test]
fn test_cd_encrypted_ppid_variants() {
    for (tag, expected) in [
        (2u16, Ppid::Enc2048(vec![0x50; 384])),
        (3u16, Ppid::Enc3072(vec![0x50; 384])),
    ] {
        let sig = sig_block_bytes(&[], tag, &ppid_cd_payload());
        let bytes = quote_bytes(3, &sig);
        let quote = Quote::parse(&bytes).unwrap();
        let Signature::EcdsaP256 { qe_certification_data, .. } = quote.signature;
        match qe_certification_data {
            QeCertificationData::Ppid { ppid, .. } => assert_eq!(ppid, expected),
            QeCertificationData::CertChain(_) => panic!("expected a PPID form"),
        }
    }
}

#[test]
fn test_auth_data_overruns_block() {
    // The declared authentication-data length reaches past the end of the
    // signature block.
    let mut sig = sig_block_bytes(&[], 5, &[]);
    sig[576] = 0xFF;
    sig[577] = 0xFF;
    let bytes = quote_bytes(3, &sig);
    assert_eq!(Quote::parse(&bytes), Err(ParseError::TooShort));
}

#[test]
fn test_sig_len_overruns_input() {
    let sig = sig_block_bytes(&[], 5, &[]);
    let mut bytes = quote_bytes(3, &sig);
    // Declare one byte more than the buffer holds.
    let declared = (sig.len() + 1) as u32;
    bytes[432..436].copy_from_slice(&declared.to_le_bytes());
    assert_eq!(Quote::parse(&bytes), Err(ParseError::TooShort));
}

#[test]
fn test_sig_block_interior_slack_is_discarded() {
    // Bytes between the end of the certification data and the end of the
    // span the outer length prefix delimited are permitted and dropped.
    let mut sig = sig_block_bytes(&[], 5, &[0x01, 0x02]);
    sig.extend_from_slice(&[0xDD; 3]);
    let bytes = quote_bytes(3, &sig);
    let quote = Quote::parse(&bytes).unwrap();
    let Signature::EcdsaP256 { qe_certification_data, .. } = quote.signature;
    assert_eq!(qe_certification_data, QeCertificationData::CertChain(vec![0x01, 0x02]));
}

#[test]
fn test_is_valid_cd_type_values() {
    for tag in [1u16, 2, 3, 5] {
        assert!(is_valid_cd_type(tag));
    }
    for tag in [0u16, 4, 6, 100, 0xFFFF] {
        assert!(!is_valid_cd_type(tag));
    }
}

#[test]
fn test_parse_qe_cd_directly() {
    assert_eq!(
        parse_qe_cd(5, &[0xAB, 0xCD]),
        Ok(QeCertificationData::CertChain(vec![0xAB, 0xCD]))
    );
    assert_eq!(
        parse_qe_cd(4, &ppid_cd_payload()),
        Err(ParseError::InvalidCertificationDataType)
    );
    assert_eq!(parse_qe_cd(1, &[0x00; 10]), Err(ParseError::TooShort));
    match parse_qe_cd(1, &ppid_cd_payload()) {
        Ok(QeCertificationData::Ppid { ppid, cpu_svn, pce_svn, pce_id }) => {
            assert_eq!(ppid, Ppid::Clear(vec![0x50; 384]));
            assert_eq!(cpu_svn, vec![0x51; 16]);
            assert_eq!(pce_svn, 0x3333);
            assert_eq!(pce_id, 0x4444);
        }
        other => panic!("unexpected result: {:?}", other),
    }
}

#[test]
fn test_reserved_bytes_are_not_reconstructed() {
    // Two quotes differing only in reserved report-body bytes must differ
    // in their signed messages: the span is kept, never rebuilt from
    // fields.
    let bytes = sample_quote(3);
    let mut altered = bytes.clone();
    altered[48 + 20] ^= 0xFF; // first reserved region of the isv report
    let a = Quote::parse(&bytes).unwrap();
    let b = Quote::parse(&altered).unwrap();
    assert_eq!(a.isv_report.cpu_svn, b.isv_report.cpu_svn);
    assert_ne!(a.isv_report.signed_message(), b.isv_report.signed_message());
}
