//! Summaries of the certificates a TLS peer presented: fingerprint,
//! subject, issuer, serial, validity, SAN names and addresses, CA flag.

use vstd::prelude::*;

use sha2::{Digest, Sha256};
use x509_parser::prelude::{FromDer, GeneralName, X509Certificate};

use crate::net::{IpAddr, Ipv4Addr, Ipv6Addr, ip_text, ip_to_string};
use crate::text::{char_from, hex_digit, string_push, texts};
use crate::tls::CertificateInfo;

verus! {

/// One entry of a certificate's subject alternative names.
#[derive(Debug, Clone)]
pub enum SanEntry {
    Dns(String),
    Ip(Vec<u8>),
    Other,
}

pub enum SanView {
    Dns(Seq<char>),
    Ip(Seq<u8>),
    Other,
}

impl View for SanEntry {
    type V = SanView;

    open spec fn view(&self) -> SanView {
        match self {
            SanEntry::Dns(s) => SanView::Dns(s@),
            SanEntry::Ip(b) => SanView::Ip(b@),
            SanEntry::Other => SanView::Other,
        }
    }
}

pub open spec fn san_views(v: Seq<SanEntry>) -> Seq<SanView> {
    v.map_values(|e: SanEntry| e@)
}

/// The text fields and CA flag of a certificate.
#[derive(Debug, Clone)]
pub struct CertificateFields {
    pub subject: String,
    pub issuer: String,
    pub serial: String,
    pub not_before: String,
    pub not_after: String,
    pub is_ca: bool,
}

pub struct FieldsView {
    pub subject: Seq<char>,
    pub issuer: Seq<char>,
    pub serial: Seq<char>,
    pub not_before: Seq<char>,
    pub not_after: Seq<char>,
    pub is_ca: bool,
}

impl View for CertificateFields {
    type V = FieldsView;

    open spec fn view(&self) -> FieldsView {
        FieldsView {
            subject: self.subject@,
            issuer: self.issuer@,
            serial: self.serial@,
            not_before: self.not_before@,
            not_after: self.not_after@,
            is_ca: self.is_ca,
        }
    }
}

/// The fields x509-parser reads from DER bytes (subject and issuer as its
/// `X509Name` displays them, the serial as `raw_serial_as_string`, the
/// validity bounds as `ASN1Time` displays them, `is_ca`); none when the
/// bytes are not a certificate.
pub uninterp spec fn x509_fields(der: Seq<u8>) -> Option<FieldsView>;

/// The subject alternative names x509-parser reads from DER bytes, in
/// order; empty when there are none or they cannot be read.
pub uninterp spec fn x509_san(der: Seq<u8>) -> Seq<SanView>;

/// The SHA-256 digest of the bytes.
pub uninterp spec fn sha256(data: Seq<u8>) -> Seq<u8>;

/// Parses DER bytes with x509-parser's `X509Certificate::from_der` and
/// reads its text fields and CA flag; the contract names the outcome.
#[verifier::external_body]
fn read_certificate_fields(der: &[u8]) -> (r: Option<CertificateFields>)
    ensures
        match r {
            Some(f) => x509_fields(der@) == Some(f@),
            None => x509_fields(der@) is None,
        },
{
    let (_, c) = X509Certificate::from_der(der).ok()?;
    Some(CertificateFields {
        subject: c.subject().to_string(),
        issuer: c.issuer().to_string(),
        serial: c.raw_serial_as_string(),
        not_before: c.validity().not_before.to_string(),
        not_after: c.validity().not_after.to_string(),
        is_ca: c.is_ca(),
    })
}

/// Parses DER bytes with x509-parser and lists the entries of its
/// `subject_alternative_name` extension, one for one; the contract names
/// the list.
#[verifier::external_body]
fn read_certificate_san(der: &[u8]) -> (r: Vec<SanEntry>)
    ensures
        san_views(r@) == x509_san(der@),
{
    match X509Certificate::from_der(der) {
        Ok((_, c)) => match c.subject_alternative_name() {
            Ok(Some(san)) => san.value.general_names.iter().map(|name| match name {
                GeneralName::DNSName(d) => SanEntry::Dns(d.to_string()),
                GeneralName::IPAddress(b) => SanEntry::Ip(b.to_vec()),
                _ => SanEntry::Other,
            }).collect(),
            _ => Vec::new(),
        },
        Err(_) => Vec::new(),
    }
}

/// sha2's `Sha256::digest`: the 32-byte digest of the bytes.
#[verifier::external_body]
fn sha256_digest(data: &[u8]) -> (r: Vec<u8>)
    ensures
        r@ == sha256(data@),
        r@.len() == 32,
{
    Sha256::digest(data).to_vec()
}

/// Lowercase hexadecimal, two digits per byte, high digit first.
pub open spec fn hex_text(bytes: Seq<u8>) -> Seq<char> {
    Seq::new(
        2 * bytes.len(),
        |i: int| if i % 2 == 0 {
            hex_digit(bytes[i / 2] as nat / 16)
        } else {
            hex_digit(bytes[i / 2] as nat % 16)
        },
    )
}

/// hex's `encode`, whose documented result is `hex_text`.
#[verifier::external_body]
fn hex_encode(data: &[u8]) -> (r: String)
    ensures
        r@ == hex_text(data@),
{
    hex::encode(data)
}

/// The texts of the DNS names among the entries, in order.
pub open spec fn san_dns_names(san: Seq<SanView>) -> Seq<Seq<char>>
    decreases san.len(),
{
    if san.len() == 0 {
        seq![]
    } else {
        san_dns_names(san.drop_last()) + match san.last() {
            SanView::Dns(d) => seq![d],
            _ => seq![],
        }
    }
}

/// The address of a 4- or 16-byte SAN entry.
pub open spec fn san_address(b: Seq<u8>) -> Option<IpAddr> {
    if b.len() == 4 {
        Some(IpAddr::V4(Ipv4Addr { a: b[0], b: b[1], c: b[2], d: b[3] }))
    } else if b.len() == 16 {
        Some(
            IpAddr::V6(
                Ipv6Addr {
                    s0: (b[0] as int * 256 + b[1] as int) as u16,
                    s1: (b[2] as int * 256 + b[3] as int) as u16,
                    s2: (b[4] as int * 256 + b[5] as int) as u16,
                    s3: (b[6] as int * 256 + b[7] as int) as u16,
                    s4: (b[8] as int * 256 + b[9] as int) as u16,
                    s5: (b[10] as int * 256 + b[11] as int) as u16,
                    s6: (b[12] as int * 256 + b[13] as int) as u16,
                    s7: (b[14] as int * 256 + b[15] as int) as u16,
                },
            ),
        )
    } else {
        None
    }
}

/// The texts of the addresses among the entries (4 or 16 bytes), in order.
pub open spec fn san_addresses(san: Seq<SanView>) -> Seq<Seq<char>>
    decreases san.len(),
{
    if san.len() == 0 {
        seq![]
    } else {
        san_addresses(san.drop_last()) + match san.last() {
            SanView::Ip(b) => match san_address(b) {
                Some(ip) => seq![ip_text(ip)],
                None => seq![],
            },
            _ => seq![],
        }
    }
}

fn address_of(b: &Vec<u8>) -> (r: Option<IpAddr>)
    ensures
        r == san_address(b@),
{
    if b.len() == 4 {
        Some(IpAddr::V4(Ipv4Addr { a: b[0], b: b[1], c: b[2], d: b[3] }))
    } else if b.len() == 16 {
        Some(
            IpAddr::V6(
                Ipv6Addr {
                    s0: (b[0] as u16) * 256 + (b[1] as u16),
                    s1: (b[2] as u16) * 256 + (b[3] as u16),
                    s2: (b[4] as u16) * 256 + (b[5] as u16),
                    s3: (b[6] as u16) * 256 + (b[7] as u16),
                    s4: (b[8] as u16) * 256 + (b[9] as u16),
                    s5: (b[10] as u16) * 256 + (b[11] as u16),
                    s6: (b[12] as u16) * 256 + (b[13] as u16),
                    s7: (b[14] as u16) * 256 + (b[15] as u16),
                },
            ),
        )
    } else {
        None
    }
}

/// The SAN names and address texts of a certificate.
fn split_san(san: &Vec<SanEntry>) -> (r: (Vec<String>, Vec<String>))
    ensures
        texts(r.0@) == san_dns_names(san_views(san@)),
        texts(r.1@) == san_addresses(san_views(san@)),
{
    let ghost v = san_views(san@);
    let mut names: Vec<String> = Vec::new();
    let mut addresses: Vec<String> = Vec::new();
    let mut i: usize = 0;
    while i < san.len()
        invariant
            v == san_views(san@),
            i <= san@.len(),
            texts(names@) == san_dns_names(v.take(i as int)),
            texts(addresses@) == san_addresses(v.take(i as int)),
        decreases san@.len() - i,
    {
        proof {
            assert(v.take(i + 1).drop_last() =~= v.take(i as int));
            assert(v.take(i + 1).last() == san@[i as int]@);
        }
        let ghost n0 = texts(names@);
        let ghost a0 = texts(addresses@);
        match &san[i] {
            SanEntry::Dns(d) => {
                names.push(d.clone());
                assert(texts(names@) =~= n0 + seq![d@]);
                assert(texts(addresses@) =~= a0 + Seq::<Seq<char>>::empty());
            },
            SanEntry::Ip(b) => {
                match address_of(b) {
                    Some(ip) => {
                        let t = ip_to_string(&ip);
                        addresses.push(t);
                        assert(texts(addresses@) =~= a0 + seq![ip_text(ip)]);
                    },
                    None => {
                        assert(texts(addresses@) =~= a0 + Seq::<Seq<char>>::empty());
                    },
                }
                assert(texts(names@) =~= n0 + Seq::<Seq<char>>::empty());
            },
            SanEntry::Other => {
                assert(texts(names@) =~= n0 + Seq::<Seq<char>>::empty());
                assert(texts(addresses@) =~= a0 + Seq::<Seq<char>>::empty());
            },
        }
        i += 1;
    }
    assert(v.take(i as int) =~= v);
    (names, addresses)
}

/// `c` summarises the certificate of the DER bytes: its SHA-256
/// fingerprint in lowercase hex, the fields x509-parser reads, the SAN DNS
/// names and the SAN addresses as text.
pub open spec fn summarises(c: CertificateInfo, der: Seq<u8>) -> bool {
    match x509_fields(der) {
        None => false,
        Some(f) => {
            &&& c.sha256@ == hex_text(sha256(der))
            &&& c.subject@ == f.subject && c.issuer@ == f.issuer && c.serial@ == f.serial
            &&& c.not_before@ == f.not_before && c.not_after@ == f.not_after && c.is_ca == f.is_ca
            &&& texts(c.dns_names@) == san_dns_names(x509_san(der))
            &&& texts(c.ip_addresses@) == san_addresses(x509_san(der))
        },
    }
}

/// The summary of one DER certificate, or none when it does not parse.
pub fn parse_certificate(der: &[u8]) -> (r: Option<CertificateInfo>)
    ensures
        match r {
            None => x509_fields(der@) is None,
            Some(c) => summarises(c, der@),
        },
{
    let fields = read_certificate_fields(der)?;
    let san = read_certificate_san(der);
    let (dns_names, ip_addresses) = split_san(&san);
    let digest = sha256_digest(der);
    let sha256 = hex_encode(digest.as_slice());
    Some(
        CertificateInfo {
            sha256,
            subject: fields.subject,
            issuer: fields.issuer,
            serial: fields.serial,
            not_before: fields.not_before,
            not_after: fields.not_after,
            dns_names,
            ip_addresses,
            is_ca: fields.is_ca,
        },
    )
}

/// The DER certificates that parse, in order.
pub open spec fn parseable(ders: Seq<Vec<u8>>) -> Seq<Seq<u8>>
    decreases ders.len(),
{
    if ders.len() == 0 {
        seq![]
    } else {
        parseable(ders.drop_last()) + if x509_fields(ders.last()@) is Some {
            seq![ders.last()@]
        } else {
            seq![]
        }
    }
}

/// The summaries of the certificates that parse, in order.
pub fn parse_certificates(ders: &Vec<Vec<u8>>) -> (r: Vec<CertificateInfo>)
    ensures
        r@.len() == parseable(ders@).len(),
        forall|i: int| 0 <= i < r@.len() ==> summarises(#[trigger] r@[i], parseable(ders@)[i]),
{
    let mut r: Vec<CertificateInfo> = Vec::new();
    let mut i: usize = 0;
    while i < ders.len()
        invariant
            i <= ders@.len(),
            r@.len() == parseable(ders@.take(i as int)).len(),
            forall|k: int| 0 <= k < r@.len() ==> summarises(#[trigger] r@[k], parseable(ders@.take(i as int))[k]),
        decreases ders@.len() - i,
    {
        proof {
            assert(ders@.take(i + 1).drop_last() =~= ders@.take(i as int));
            assert(ders@.take(i + 1).last() == ders@[i as int]);
        }
        let ghost before = r@;
        let ghost p0 = parseable(ders@.take(i as int));
        match parse_certificate(ders[i].as_slice()) {
            Some(c) => {
                r.push(c);
                proof {
                    assert(parseable(ders@.take(i + 1)) =~= p0 + seq![ders@[i as int]@]);
                    assert forall|k: int| 0 <= k < r@.len() implies summarises(
                        #[trigger] r@[k],
                        parseable(ders@.take(i + 1))[k],
                    ) by {
                        if k < before.len() {
                            assert(r@[k] == before[k]);
                        }
                    }
                }
            },
            None => {
                assert(parseable(ders@.take(i + 1)) =~= p0 + Seq::<Seq<u8>>::empty());
            },
        }
        i += 1;
    }
    assert(ders@.take(i as int) =~= ders@);
    r
}

} // verus!
