//! The identity the gateway presents upstream: a GUID (a version-4 UUID is
//! replaced by its MD5 digest), a machine id derived from the GUID, a device
//! code and a MAC address, each from the configuration or a fresh value.
use crate::cookies::DeviceIdentity;
use crate::signing::{md5_compute, md5_digest, md5_hex, md5_hex_of};
use crate::text::{decimal, u128_text, upper_case, uppercase};
use vstd::prelude::*;
use vstd::utf8::encode_utf8;

verus! {

/// The version `uuid::Uuid::parse_str` reads from the text, when it parses.
pub uninterp spec fn uuid_version(text: Seq<char>) -> Option<usize>;

/// `Uuid::parse_str(text)`, as the parsed UUID's version number.
///
/// Trusted: which texts parse, and their versions, are named
/// (`uuid_version`).
#[verifier::external_body]
fn parsed_uuid_version(text: &str) -> (r: Option<usize>)
    ensures
        r == uuid_version(text@),
{
    uuid::Uuid::parse_str(text).ok().map(|u| u.get_version_num())
}

/// The GUID presented: the MD5 hex digest of a version-4 UUID, any other
/// text as it is.
pub open spec fn device_guid(raw: Seq<char>) -> Seq<char> {
    if uuid_version(raw) == Some(4usize) {
        md5_hex(raw)
    } else {
        raw
    }
}

/// The value of bytes read as a big-endian unsigned number.
pub open spec fn be_value(bytes: Seq<u8>) -> nat
    decreases bytes.len(),
{
    if bytes.len() == 0 {
        0
    } else {
        be_value(bytes.drop_last()) * 256 + bytes.last() as nat
    }
}

/// 256 to the power `n`.
pub open spec fn pow256(n: nat) -> nat
    decreases n,
{
    if n == 0 {
        1
    } else {
        pow256((n - 1) as nat) * 256
    }
}

proof fn lemma_be_value_bound(bytes: Seq<u8>)
    ensures
        be_value(bytes) < pow256(bytes.len()),
    decreases bytes.len(),
{
    if bytes.len() > 0 {
        lemma_be_value_bound(bytes.drop_last());
        let v = be_value(bytes.drop_last());
        let p = pow256(bytes.drop_last().len());
        let b = bytes.last() as nat;
        assert(v * 256 + b < p * 256) by (nonlinear_arith)
            requires
                v < p,
                b < 256,
        ;
    }
}

proof fn lemma_pow256_grows(i: nat, j: nat)
    requires
        i <= j,
    ensures
        pow256(i) <= pow256(j),
    decreases j - i,
{
    if i < j {
        lemma_pow256_grows(i, (j - 1) as nat);
        assert(pow256(j) == pow256((j - 1) as nat) * 256);
    }
}

/// The machine id presented: the decimal value of the GUID's MD5 digest read
/// as a big-endian 128-bit number.
pub open spec fn device_mid(guid: Seq<char>) -> Seq<char> {
    decimal(be_value(md5_digest(encode_utf8(guid))))
}

/// The machine id for a GUID (see [`device_mid`]).
pub fn machine_id(guid: &str) -> (r: String)
    ensures
        r@ == device_mid(guid@),
{
    let digest = md5_compute(guid.as_bytes());
    let mut v: u128 = 0;
    let mut i: usize = 0;
    proof {
        reveal_with_fuel(pow256, 17);
        assert(pow256(16) == 340282366920938463463374607431768211456nat);
    }
    while i < digest.len()
        invariant
            digest@.len() == 16,
            i <= 16,
            v as nat == be_value(digest@.take(i as int)),
            pow256(16) == 340282366920938463463374607431768211456nat,
        decreases 16 - i,
    {
        proof {
            let t = digest@.take(i + 1);
            assert(t.drop_last() =~= digest@.take(i as int));
            lemma_be_value_bound(t);
            lemma_pow256_grows((i + 1) as nat, 16);
            assert(be_value(t) == v * 256 + digest@[i as int]);
        }
        v = v * 256 + digest[i] as u128;
        i = i + 1;
    }
    assert(digest@.take(16) =~= digest@);
    u128_text(v)
}

/// The configured text, or the fallback.
pub open spec fn or_text(configured: Option<Seq<char>>, fallback: Seq<char>) -> Seq<char> {
    match configured {
        Some(t) => t,
        None => fallback,
    }
}

fn text_or(configured: Option<String>, fallback: String) -> (r: String)
    ensures
        r@ == or_text(
            match configured {
                Some(t) => Some(t@),
                None => None,
            },
            fallback@,
        ),
{
    match configured {
        Some(t) => t,
        None => fallback,
    }
}

/// The device identity from the configured values (`KUGOU_API_GUID`,
/// `KUGOU_API_DEV`, `KUGOU_API_MAC`, `platform`, `KUGOU_API_WEBGL`) and the
/// fresh ones used in their place: a random UUID and a random device code.
pub fn device_identity(
    guid: Option<String>,
    fresh_uuid: String,
    dev: Option<String>,
    fresh_dev: String,
    mac: Option<String>,
    platform: Option<String>,
    webgl: Option<String>,
) -> (r: DeviceIdentity)
    ensures
        r.guid@ == device_guid(
            or_text(
                match guid {
                    Some(t) => Some(t@),
                    None => None,
                },
                fresh_uuid@,
            ),
        ),
        r.mid@ == device_mid(r.guid@),
        r.dev@ == uppercase(
            or_text(
                match dev {
                    Some(t) => Some(t@),
                    None => None,
                },
                fresh_dev@,
            ),
        ),
        r.mac@ == uppercase(
            or_text(
                match mac {
                    Some(t) => Some(t@),
                    None => None,
                },
                "02:00:00:00:00:00"@,
            ),
        ),
        r.platform@ == or_text(
            match platform {
                Some(t) => Some(t@),
                None => None,
            },
            "undefined"@,
        ),
        r.webgl == webgl,
{
    let raw = text_or(guid, fresh_uuid);
    let g = if parsed_uuid_version(raw.as_str()) == Some(4usize) {
        md5_hex_of(raw.as_str())
    } else {
        raw
    };
    let mid = machine_id(g.as_str());
    let d = text_or(dev, fresh_dev);
    let m = text_or(mac, "02:00:00:00:00:00".to_owned());
    DeviceIdentity {
        platform: text_or(platform, "undefined".to_owned()),
        guid: g,
        mid,
        dev: upper_case(d.as_str()),
        mac: upper_case(m.as_str()),
        webgl,
    }
}

} // verus!
