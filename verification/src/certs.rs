//! TLS certificate provisioning: generated self-signed or private-CA
//! material, and the extraction of key and chain from a remote
//! certificate bundle.
//!
//! Fetching the remote bundle and persisting generated material to disk
//! happen outside the library; what stands here is the generation calls,
//! the validity window, and the bundle decoding.

use vstd::prelude::*;

verus! {

use vstd::string::StringExecFns;

/// A listener's TLS material: private key and certificate chain, both as
/// PEM text.
#[derive(Clone, Debug)]
pub struct CertKey {
    pub key_pem: String,
    pub cert_pem: String,
}

/// Why provisioning failed.
#[derive(Clone, Copy, Debug, PartialEq, Eq, Structural)]
pub enum ProvisionError {
    /// Key generation or certificate signing failed.
    Generation,
    /// The fetched certificate bundle could not be decoded.
    BundleDecode,
}

/// One day in seconds.
pub open spec fn day_secs() -> u64 {
    86400
}

/// One year of 365 days in seconds.
pub open spec fn year_secs() -> u64 {
    31536000
}

/// The last second of year 9999, the latest instant the certificate
/// library's timestamp type represents.
pub open spec fn max_cert_secs() -> u64 {
    253_402_300_799
}

/// The validity window of generated material: from one day before `now`
/// to one year after it.  The window must end within the representable
/// timestamp range.
pub fn validity_interval(now_secs: u64) -> (r: (u64, u64))
    requires
        now_secs >= 86400,
        now_secs + 31536000 <= 253_402_300_799,
    ensures
        r.0 == now_secs - day_secs(),
        r.1 == now_secs + year_secs(),
        r.0 <= r.1 <= max_cert_secs(),
{
    (now_secs - 86400, now_secs + 31536000)
}

#[verifier::external_type_specification]
#[verifier::external_body]
pub struct ExCertificateParams(rcgen::CertificateParams);

#[verifier::external_type_specification]
#[verifier::external_body]
pub struct ExKeyPair(rcgen::KeyPair);

#[verifier::external_type_specification]
#[verifier::external_body]
#[verifier::reject_recursive_types(S)]
pub struct ExIssuer<'a, S>(rcgen::Issuer<'a, S>);

/// Relies on rcgen::CertificateParams::new and the params fields: the
/// parameters of a server certificate for the given names and validity
/// window, with digital-signature key usage, an authority key
/// identifier, and server-auth extended usage.  rcgen's timestamps reach
/// only the end of year 9999 and converting a later instant panics, so
/// such windows are excluded.
#[verifier::external_body]
fn leaf_params(sans: &Vec<String>, nb: u64, na: u64) -> (r: Option<rcgen::CertificateParams>)
    requires
        nb <= na <= max_cert_secs(),
{
    let mut p = rcgen::CertificateParams::new(sans.clone()).ok()?;
    p.not_before = (std::time::UNIX_EPOCH + std::time::Duration::from_secs(nb)).into();
    p.not_after = (std::time::UNIX_EPOCH + std::time::Duration::from_secs(na)).into();
    p.key_usages.push(rcgen::KeyUsagePurpose::DigitalSignature);
    p.use_authority_key_identifier_extension = true;
    p.extended_key_usages.push(rcgen::ExtendedKeyUsagePurpose::ServerAuth);
    Some(p)
}

/// Relies on rcgen::CertificateParams::new and the params fields: the
/// parameters of a certificate-authority certificate with no names,
/// unconstrained basic constraints, and digital-signature,
/// key-cert-sign and CRL-sign usage.  rcgen's timestamps reach only the
/// end of year 9999 and converting a later instant panics, so such
/// windows are excluded.
#[verifier::external_body]
fn ca_params(nb: u64, na: u64) -> (r: Option<rcgen::CertificateParams>)
    requires
        nb <= na <= max_cert_secs(),
{
    let mut p = rcgen::CertificateParams::new(Vec::<String>::new()).ok()?;
    p.not_before = (std::time::UNIX_EPOCH + std::time::Duration::from_secs(nb)).into();
    p.not_after = (std::time::UNIX_EPOCH + std::time::Duration::from_secs(na)).into();
    p.is_ca = rcgen::IsCa::Ca(rcgen::BasicConstraints::Unconstrained);
    p.key_usages.push(rcgen::KeyUsagePurpose::DigitalSignature);
    p.key_usages.push(rcgen::KeyUsagePurpose::KeyCertSign);
    p.key_usages.push(rcgen::KeyUsagePurpose::CrlSign);
    Some(p)
}

/// Relies on rcgen::KeyPair::generate: a fresh random key pair; nothing
/// holds of it.
#[verifier::external_body]
fn keypair_generate() -> (r: Option<rcgen::KeyPair>) {
    rcgen::KeyPair::generate().ok()
}

/// Relies on rcgen::KeyPair::serialize_pem: the key pair as PEM text.
#[verifier::external_body]
fn keypair_pem(kp: &rcgen::KeyPair) -> (r: String) {
    kp.serialize_pem()
}

/// Relies on rcgen::CertificateParams::self_signed and
/// rcgen::Certificate::pem: a certificate over the parameters, signed
/// with its own key, as PEM text.
#[verifier::external_body]
fn self_sign(p: &rcgen::CertificateParams, kp: &rcgen::KeyPair) -> (r: Option<String>) {
    Some(p.self_signed(kp).ok()?.pem())
}

/// Relies on rcgen::Issuer::new: the params and key of a CA, packed as a
/// certificate issuer.
#[verifier::external_body]
fn make_issuer(p: rcgen::CertificateParams, kp: rcgen::KeyPair) -> (r: rcgen::Issuer<
    'static,
    rcgen::KeyPair,
>) {
    rcgen::Issuer::new(p, kp)
}

/// Relies on rcgen::CertificateParams::signed_by and
/// rcgen::Certificate::pem: a certificate over the parameters and key,
/// signed by the issuer, as PEM text.
#[verifier::external_body]
fn sign_by(
    p: &rcgen::CertificateParams,
    kp: &rcgen::KeyPair,
    issuer: &rcgen::Issuer<'static, rcgen::KeyPair>,
) -> (r: Option<String>) {
    Some(p.signed_by(kp, issuer).ok()?.pem())
}

/// The subject alternative names a generated server certificate carries.
fn server_sans() -> (r: Vec<String>)
    ensures
        r@.len() == 2,
        r@[0]@ == "localhost"@,
        r@[1]@ == "local.fucktls.com"@,
{
    let mut sans: Vec<String> = Vec::new();
    sans.push("localhost".to_owned());
    sans.push("local.fucktls.com".to_owned());
    sans
}

/// Generates self-signed material valid from one day before `now_secs`
/// to one year after it.  Success rests with the key generator; a failure
/// is a generation error.
pub fn gen_self_signed(now_secs: u64) -> (r: Result<CertKey, ProvisionError>)
    requires
        now_secs >= 86400,
        now_secs + 31536000 <= 253_402_300_799,
    ensures
        r matches Err(e) ==> e == ProvisionError::Generation,
{
    let window = validity_interval(now_secs);
    let sans = server_sans();
    let params = match leaf_params(&sans, window.0, window.1) {
        Some(p) => p,
        None => {
            return Err(ProvisionError::Generation);
        },
    };
    let kp = match keypair_generate() {
        Some(kp) => kp,
        None => {
            return Err(ProvisionError::Generation);
        },
    };
    let cert_pem = match self_sign(&params, &kp) {
        Some(c) => c,
        None => {
            return Err(ProvisionError::Generation);
        },
    };
    Ok(CertKey { key_pem: keypair_pem(&kp), cert_pem })
}

/// Generates a private CA and a server certificate signed by it, both
/// valid from one day before `now_secs` to one year after it.  Hands back
/// the server material together with the CA certificate for the operator
/// to inspect.  A failure of either generation step is a generation
/// error.
pub fn gen_private_ca(now_secs: u64) -> (r: Result<(CertKey, String), ProvisionError>)
    requires
        now_secs >= 86400,
        now_secs + 31536000 <= 253_402_300_799,
    ensures
        r matches Err(e) ==> e == ProvisionError::Generation,
{
    let window = validity_interval(now_secs);
    let cap = match ca_params(window.0, window.1) {
        Some(p) => p,
        None => {
            return Err(ProvisionError::Generation);
        },
    };
    let ca_kp = match keypair_generate() {
        Some(kp) => kp,
        None => {
            return Err(ProvisionError::Generation);
        },
    };
    let ca_cert_pem = match self_sign(&cap, &ca_kp) {
        Some(c) => c,
        None => {
            return Err(ProvisionError::Generation);
        },
    };
    let issuer = make_issuer(cap, ca_kp);
    let sans = server_sans();
    let params = match leaf_params(&sans, window.0, window.1) {
        Some(p) => p,
        None => {
            return Err(ProvisionError::Generation);
        },
    };
    let kp = match keypair_generate() {
        Some(kp) => kp,
        None => {
            return Err(ProvisionError::Generation);
        },
    };
    let cert_pem = match sign_by(&params, &kp, &issuer) {
        Some(c) => c,
        None => {
            return Err(ProvisionError::Generation);
        },
    };
    Ok((CertKey { key_pem: keypair_pem(&kp), cert_pem }, ca_cert_pem))
}

/// What a compressed archive inflates to, when it is well-formed gzip.
pub uninterp spec fn gunzip_of(data: Seq<u8>) -> Option<Seq<u8>>;

/// The name and text of each entry of a tar archive, in archive order,
/// when the archive is well-formed and its entries decode as text.
pub uninterp spec fn tar_entries_of(data: Seq<u8>) -> Option<Seq<(Seq<char>, Seq<char>)>>;

/// Relies on flate2's GzDecoder: inflating is a function of the bytes
/// alone, and fails exactly when they are not well-formed gzip.
#[verifier::external_body]
fn gunzip(data: &[u8]) -> (r: Option<Vec<u8>>)
    ensures
        r is Some <==> gunzip_of(data@) is Some,
        r matches Some(v) ==> gunzip_of(data@) == Some(v@),
{
    let mut decoder = flate2::bufread::GzDecoder::new(data);
    let mut out: Vec<u8> = Vec::new();
    std::io::Read::read_to_end(&mut decoder, &mut out).ok()?;
    Some(out)
}

/// Relies on tar's Archive: listing entry file names and contents is a
/// function of the archive bytes alone; an unreadable archive or an
/// entry that does not decode as text fails the listing, and an entry
/// without a file name is passed over.
#[verifier::external_body]
fn tar_entry_texts(data: &[u8]) -> (r: Option<Vec<(String, String)>>)
    ensures
        r is Some <==> tar_entries_of(data@) is Some,
        r matches Some(v) ==> {
            &&& tar_entries_of(data@) matches Some(es)
            &&& es.len() == v@.len()
            &&& forall|i: int|
                0 <= i < es.len() ==> es[i].0 == (#[trigger] v@[i]).0@ && es[i].1 == v@[i].1@
        },
{
    let mut archive = tar::Archive::new(data);
    let mut out: Vec<(String, String)> = Vec::new();
    for entry in archive.entries().ok()? {
        let mut e = entry.ok()?;
        let name = match e.path().ok()?.file_name().and_then(|n| n.to_str()) {
            Some(n) => n.to_string(),
            None => continue,
        };
        let mut text = String::new();
        std::io::Read::read_to_string(&mut e, &mut text).ok()?;
        out.push((name, text));
    }
    Some(out)
}

/// The texts of all entries named `name`, laid end to end in archive
/// order.
pub open spec fn bundle_part(entries: Seq<(Seq<char>, Seq<char>)>, name: Seq<char>) -> Seq<char>
    decreases entries.len(),
{
    if entries.len() == 0 {
        Seq::<char>::empty()
    } else {
        (if entries[0].0 == name {
            entries[0].1
        } else {
            Seq::<char>::empty()
        }) + bundle_part(entries.drop_first(), name)
    }
}

/// The views of a list of name/text pairs.
pub open spec fn entry_views(entries: Seq<(String, String)>) -> Seq<(Seq<char>, Seq<char>)> {
    entries.map(|i: int, p: (String, String)| (p.0@, p.1@))
}

/// Collects the private key and certificate chain out of a bundle's
/// entries: every entry named `privkey.pem` feeds the key, every one
/// named `fullchain.pem` the chain.  A missing part comes back as empty
/// text rather than failing; loading such material into a TLS stack
/// fails later instead.
pub fn extract_bundle(entries: &Vec<(String, String)>) -> (r: CertKey)
    ensures
        r.key_pem@ == bundle_part(entry_views(entries@), "privkey.pem"@),
        r.cert_pem@ == bundle_part(entry_views(entries@), "fullchain.pem"@),
{
    let key_name: String = "privkey.pem".to_owned();
    let cert_name: String = "fullchain.pem".to_owned();
    let mut key_pem: String = String::new();
    let mut cert_pem: String = String::new();
    let ghost evs = entry_views(entries@);
    let mut i: usize = 0;
    proof {
        assert(evs.skip(0) =~= evs);
    }
    while i < entries.len()
        invariant
            evs == entry_views(entries@),
            evs.len() == entries@.len(),
            forall|j: int|
                0 <= j < evs.len() ==> (#[trigger] evs[j]).0 == entries@[j].0@ && evs[j].1
                    == entries@[j].1@,
            i <= entries@.len(),
            key_name@ == "privkey.pem"@,
            cert_name@ == "fullchain.pem"@,
            key_pem@ + bundle_part(evs.skip(i as int), "privkey.pem"@) == bundle_part(
                evs,
                "privkey.pem"@,
            ),
            cert_pem@ + bundle_part(evs.skip(i as int), "fullchain.pem"@) == bundle_part(
                evs,
                "fullchain.pem"@,
            ),
        decreases entries@.len() - i,
    {
        proof {
            assert(evs.skip(i as int).drop_first() =~= evs.skip(i as int + 1));
            assert(evs.skip(i as int)[0] == evs[i as int]);
        }
        let ghost key_contrib: Seq<char> = if evs[i as int].0 == "privkey.pem"@ {
            evs[i as int].1
        } else {
            Seq::<char>::empty()
        };
        let ghost cert_contrib: Seq<char> = if evs[i as int].0 == "fullchain.pem"@ {
            evs[i as int].1
        } else {
            Seq::<char>::empty()
        };
        proof {
            reveal_strlit("privkey.pem");
            reveal_strlit("fullchain.pem");
            assert((key_pem@ + key_contrib) + bundle_part(evs.skip(i as int + 1), "privkey.pem"@)
                =~= key_pem@ + (key_contrib + bundle_part(evs.skip(i as int + 1), "privkey.pem"@)));
            assert((cert_pem@ + cert_contrib) + bundle_part(
                evs.skip(i as int + 1),
                "fullchain.pem"@,
            ) =~= cert_pem@ + (cert_contrib + bundle_part(
                evs.skip(i as int + 1),
                "fullchain.pem"@,
            )));
            assert(key_pem@ + Seq::<char>::empty() =~= key_pem@);
            assert(cert_pem@ + Seq::<char>::empty() =~= cert_pem@);
        }
        let entry = &entries[i];
        if entry.0.eq(&key_name) {
            key_pem.append(entry.1.as_str());
        } else if entry.0.eq(&cert_name) {
            cert_pem.append(entry.1.as_str());
        }
        i = i + 1;
    }
    proof {
        assert(evs.skip(i as int) =~= Seq::<(Seq<char>, Seq<char>)>::empty());
        assert(key_pem@ + Seq::<char>::empty() =~= key_pem@);
        assert(cert_pem@ + Seq::<char>::empty() =~= cert_pem@);
    }
    CertKey { key_pem, cert_pem }
}

/// Decodes a fetched certificate bundle: inflates the gzip archive,
/// lists the tar entries, and collects the key and chain out of them as
/// [`extract_bundle`] states.
pub fn decode_bundle(archive: &[u8]) -> (r: Result<CertKey, ProvisionError>)
    ensures
        match gunzip_of(archive@) {
            None => r == Err::<CertKey, ProvisionError>(ProvisionError::BundleDecode),
            Some(tb) => match tar_entries_of(tb) {
                None => r == Err::<CertKey, ProvisionError>(ProvisionError::BundleDecode),
                Some(es) => {
                    &&& r matches Ok(ck)
                    &&& ck.key_pem@ == bundle_part(es, "privkey.pem"@)
                    &&& ck.cert_pem@ == bundle_part(es, "fullchain.pem"@)
                },
            },
        },
{
    let tar_bytes = match gunzip(archive) {
        Some(v) => v,
        None => {
            return Err(ProvisionError::BundleDecode);
        },
    };
    let entries = match tar_entry_texts(tar_bytes.as_slice()) {
        Some(v) => v,
        None => {
            return Err(ProvisionError::BundleDecode);
        },
    };
    let ck = extract_bundle(&entries);
    proof {
        let es = tar_entries_of(tar_bytes@).unwrap();
        assert(es =~= entry_views(entries@));
    }
    Ok(ck)
}

} // verus!
