//! Core domain types.

use vstd::prelude::*;
use vstd::string::*;
use vstd::utf8::encode_utf8;

use crate::text::{digit, digit_char};

verus! {

broadcast use vstd::seq::group_seq_axioms;

/// A mod loader.
#[derive(Clone, Copy, PartialEq, Eq, Structural, Debug)]
pub enum Loader {
    Vanilla,
    Fabric,
    Quilt,
    Forge,
    NeoForge,
}

impl Loader {
    /// The name shown for the loader.
    pub open spec fn label_text(self) -> Seq<char> {
        match self {
            Loader::Vanilla => "Vanilla"@,
            Loader::Fabric => "Fabric"@,
            Loader::Quilt => "Quilt"@,
            Loader::Forge => "Forge"@,
            Loader::NeoForge => "NeoForge"@,
        }
    }

    /// The name shown for the loader.
    pub fn label(self) -> (r: &'static str)
        ensures
            r@ == self.label_text(),
    {
        match self {
            Loader::Vanilla => "Vanilla",
            Loader::Fabric => "Fabric",
            Loader::Quilt => "Quilt",
            Loader::Forge => "Forge",
            Loader::NeoForge => "NeoForge",
        }
    }

    /// Every loader, in the order in which they are offered.
    pub open spec fn offered() -> Seq<Loader> {
        seq![Loader::Vanilla, Loader::Fabric, Loader::Quilt, Loader::Forge, Loader::NeoForge]
    }

    /// Every loader, in the order in which they are offered.
    pub fn all() -> (r: [Loader; 5])
        ensures
            r@ == Self::offered(),
    {
        let r = [Loader::Vanilla, Loader::Fabric, Loader::Quilt, Loader::Forge, Loader::NeoForge];
        assert(r@ =~= Self::offered());
        r
    }
}

/// The offered list holds every loader exactly once.
pub proof fn law_every_loader_is_offered_once(loader: Loader)
    ensures
        exists|i: int|
            0 <= i < Loader::offered().len() && #[trigger] Loader::offered()[i] == loader && forall|
                j: int,
            |
                0 <= j < Loader::offered().len() && #[trigger] Loader::offered()[j] == loader ==> j
                    == i,
{
    match loader {
        Loader::Vanilla => { assert(Loader::offered()[0] == loader); },
        Loader::Fabric => { assert(Loader::offered()[1] == loader); },
        Loader::Quilt => { assert(Loader::offered()[2] == loader); },
        Loader::Forge => { assert(Loader::offered()[3] == loader); },
        Loader::NeoForge => { assert(Loader::offered()[4] == loader); },
    }
}

/// Two different loaders never carry the same name.
pub proof fn law_loader_labels_differ(a: Loader, b: Loader)
    ensures
        a.label_text() == b.label_text() <==> a == b,
{
    reveal_strlit("Vanilla");
    reveal_strlit("Fabric");
    reveal_strlit("Quilt");
    reveal_strlit("Forge");
    reveal_strlit("NeoForge");
    assert("Vanilla"@[0] == 'V');
    assert("Fabric"@.len() == 6 && "Quilt"@.len() == 5 && "Forge"@.len() == 5 && "NeoForge"@.len() == 8);
    assert("Quilt"@[0] == 'Q');
    assert("Forge"@[0] == 'F');
}

/// The account handed to the game.
pub struct Account {
    pub username: String,
    pub uuid: String,
    pub access_token: String,
    /// "msa" for real accounts, "legacy"/"offline" otherwise.
    pub user_type: String,
}

impl Clone for Account {
    fn clone(&self) -> (r: Account)
        ensures
            r == *self,
    {
        Account {
            username: self.username.clone(),
            uuid: self.uuid.clone(),
            access_token: self.access_token.clone(),
            user_type: self.user_type.clone(),
        }
    }
}

/// The MD5 digest of a sequence of bytes.
pub uninterp spec fn md5_digest(data: Seq<u8>) -> Seq<u8>;

/// `md5::compute`: the MD5 digest, a function of the bytes alone. What the digest of given bytes
/// is stays unsaid: it is a page of rounds and constants.
#[verifier::external_body]
fn md5_compute(data: &[u8]) -> (r: [u8; 16])
    ensures
        r@ == md5_digest(data@),
{
    md5::compute(data).0
}

/// A digest with the bits set that mark a name-based UUID: version 3, RFC 4122 variant.
pub open spec fn stamped(digest: Seq<u8>) -> Seq<u8> {
    digest.update(6, (digest[6] & 0x0f) | 0x30).update(8, (digest[8] & 0x3f) | 0x80)
}

/// Two lower-case hexadecimal digits for each byte.
pub open spec fn hex_text(bytes: Seq<u8>) -> Seq<char> {
    Seq::new(
        2 * bytes.len(),
        |i: int|
            if i % 2 == 0 {
                digit(bytes[i / 2] as int / 16)
            } else {
                digit(bytes[i / 2] as int % 16)
            },
    )
}

/// Sixteen bytes as the text of a UUID: groups of 4, 2, 2, 2 and 6 bytes with dashes between.
pub open spec fn uuid_text(bytes: Seq<u8>) -> Seq<char> {
    hex_text(bytes.subrange(0, 4)) + seq!['-'] + hex_text(bytes.subrange(4, 6)) + seq!['-']
        + hex_text(bytes.subrange(6, 8)) + seq!['-'] + hex_text(bytes.subrange(8, 10)) + seq!['-']
        + hex_text(bytes.subrange(10, 16))
}

/// The bytes whose digest names the offline player `username`.
pub open spec fn offline_seed(username: Seq<char>) -> Seq<u8> {
    encode_utf8("OfflinePlayer:"@ + username)
}

/// Appends the digits of the bytes from `from` up to but not including `to`.
fn push_hex(out: &mut String, bytes: &[u8; 16], from: usize, to: usize)
    requires
        from <= to <= 16,
    ensures
        final(out)@ == old(out)@ + hex_text(bytes@.subrange(from as int, to as int)),
{
    let mut i: usize = from;
    let ghost start = out@;
    assert(start + hex_text(bytes@.subrange(from as int, from as int)) =~= start);
    while i < to
        invariant
            from <= i <= to <= 16,
            out@ == start + hex_text(bytes@.subrange(from as int, i as int)),
        decreases to - i,
    {
        let b = bytes[i];
        out.push(digit_char(b / 16));
        out.push(digit_char(b % 16));
        proof {
            let part = bytes@.subrange(from as int, i as int);
            let next = bytes@.subrange(from as int, i + 1);
            assert(next =~= part.push(b));
            assert(hex_text(next) =~= hex_text(part) + seq![digit(b as int / 16), digit(b as int % 16)]);
            assert(out@ =~= start + hex_text(next));
        }
        i += 1;
    }
}

/// The UUID that a digest stands for.
pub fn offline_uuid(digest: [u8; 16]) -> (r: String)
    ensures
        r@ == uuid_text(stamped(digest@)),
{
    let mut b = digest;
    b[6] = (b[6] & 0x0f) | 0x30;
    b[8] = (b[8] & 0x3f) | 0x80;
    assert(b@ =~= stamped(digest@));
    let mut out = String::new();
    push_hex(&mut out, &b, 0, 4);
    out.push('-');
    push_hex(&mut out, &b, 4, 6);
    out.push('-');
    push_hex(&mut out, &b, 6, 8);
    out.push('-');
    push_hex(&mut out, &b, 8, 10);
    out.push('-');
    push_hex(&mut out, &b, 10, 16);
    assert(out@ =~= uuid_text(b@));
    out
}

/// Whether `account` is the offline account of `username`.
pub open spec fn is_offline(account: Account, username: Seq<char>) -> bool {
    &&& account.username@ == username
    &&& account.uuid@ == uuid_text(stamped(md5_digest(offline_seed(username))))
    &&& account.access_token@ == "0"@
    &&& account.user_type@ == "legacy"@
}

impl Account {
    /// An offline account, using the same name-based UUID scheme servers use.
    pub fn offline(username: &str) -> (r: Account)
        ensures
            r.username@ == username@,
            r.uuid@ == uuid_text(stamped(md5_digest(offline_seed(username@)))),
            uuid_shape(r.uuid@),
            r.access_token@ == "0"@,
            r.user_type@ == "legacy"@,
            is_offline(r, username@),
    {
        let mut seed = "OfflinePlayer:".to_string();
        seed.append(username);
        let digest = md5_compute(seed.as_str().as_bytes());
        proof {
            law_offline_uuid_shape(digest@);
        }
        Account {
            username: username.to_string(),
            uuid: offline_uuid(digest),
            access_token: "0".to_string(),
            user_type: "legacy".to_string(),
        }
    }
}

/// Whether `c` is a lower-case hexadecimal digit.
pub open spec fn is_hex(c: char) -> bool {
    '0' <= c <= '9' || 'a' <= c <= 'f'
}

proof fn lemma_digit(d: int)
    requires
        0 <= d < 16,
    ensures
        is_hex(digit(d)),
{
}

/// The shape of the text of a name-based UUID: 36 characters, dashes at 8, 13, 18 and 23, the
/// version digit `3` at 14, one of `8`, `9`, `a`, `b` at 19, and lower-case hexadecimal digits
/// everywhere else.
pub open spec fn uuid_shape(t: Seq<char>) -> bool {
    &&& t.len() == 36
    &&& t[8] == '-' && t[13] == '-' && t[18] == '-' && t[23] == '-'
    &&& t[14] == '3'
    &&& t[19] == '8' || t[19] == '9' || t[19] == 'a' || t[19] == 'b'
    &&& forall|i: int|
        0 <= i < 36 && i != 8 && i != 13 && i != 18 && i != 23 ==> is_hex(#[trigger] t[i])
}

/// Whatever the digest, an offline UUID has the shape of a name-based UUID.
pub proof fn law_offline_uuid_shape(digest: Seq<u8>)
    requires
        digest.len() == 16,
    ensures
        uuid_shape(uuid_text(stamped(digest))),
{
    let b = stamped(digest);
    let t = uuid_text(b);
    let v = digest[6];
    let w = digest[8];
    assert(((v & 0x0f) | 0x30) / 16 == 3u8) by (bit_vector);
    assert(8u8 <= ((w & 0x3f) | 0x80) / 16 <= 11u8) by (bit_vector);
    assert(b[6] == (v & 0x0f) | 0x30);
    assert(b[8] == (w & 0x3f) | 0x80);
    assert(t[14] == digit(b.subrange(6, 8)[0] as int / 16));
    assert(t[19] == digit(b.subrange(8, 10)[0] as int / 16));
    assert forall|i: int| 0 <= i < 36 && i != 8 && i != 13 && i != 18 && i != 23 implies is_hex(
        #[trigger] t[i],
    ) by {
        let (part, k) = if i < 8 {
            (b.subrange(0, 4), i)
        } else if i < 13 {
            (b.subrange(4, 6), i - 9)
        } else if i < 18 {
            (b.subrange(6, 8), i - 14)
        } else if i < 23 {
            (b.subrange(8, 10), i - 19)
        } else {
            (b.subrange(10, 16), i - 24)
        };
        assert(t[i] == hex_text(part)[k]);
        lemma_digit(part[k / 2] as int / 16);
        lemma_digit(part[k / 2] as int % 16);
    }
}

proof fn lemma_hex_byte(a: u8, b: u8)
    requires
        digit(a as int / 16) == digit(b as int / 16),
        digit(a as int % 16) == digit(b as int % 16),
    ensures
        a == b,
{
    assert(0 <= a as int / 16 < 16 && 0 <= b as int / 16 < 16);
    assert(a as int / 16 == b as int / 16);
    assert(a as int % 16 == b as int % 16);
}

/// The text of a UUID tells its sixteen bytes apart: two offline players share a UUID exactly
/// where their digests agree outside the version and variant bits.
pub proof fn law_uuid_text_is_injective(a: Seq<u8>, b: Seq<u8>)
    requires
        a.len() == 16,
        b.len() == 16,
    ensures
        uuid_text(a) == uuid_text(b) <==> a == b,
{
    if uuid_text(a) == uuid_text(b) {
        let t = uuid_text(a);
        let u = uuid_text(b);
        assert forall|i: int| 0 <= i < 16 implies a[i] == b[i] by {
            let (from, to, at) = if i < 4 {
                (0int, 4int, 0int)
            } else if i < 6 {
                (4int, 6int, 9int)
            } else if i < 8 {
                (6int, 8int, 14int)
            } else if i < 10 {
                (8int, 10int, 19int)
            } else {
                (10int, 16int, 24int)
            };
            let p = a.subrange(from, to);
            let q = b.subrange(from, to);
            let k = 2 * (i - from);
            assert(t[at + k] == hex_text(p)[k]);
            assert(u[at + k] == hex_text(q)[k]);
            assert(t[at + k + 1] == hex_text(p)[k + 1]);
            assert(u[at + k + 1] == hex_text(q)[k + 1]);
            assert(p[i - from] == a[i] && q[i - from] == b[i]);
            assert((k + 1) / 2 == i - from && k / 2 == i - from);
            lemma_hex_byte(a[i], b[i]);
        }
        assert(a =~= b);
    }
}

/// An entry of the version manifest.
pub struct VersionEntry {
    pub id: String,
    pub kind: String,
    pub url: String,
}

impl Clone for VersionEntry {
    fn clone(&self) -> (r: VersionEntry)
        ensures
            r == *self,
    {
        VersionEntry {
            id: self.id.clone(),
            kind: self.kind.clone(),
            url: self.url.clone(),
        }
    }
}

/// A successful Microsoft sign-in.
#[derive(Debug)]
pub struct Session {
    pub username: String,
    pub uuid: String,
    pub access_token: String,
}

impl Clone for Session {
    fn clone(&self) -> (r: Session)
        ensures
            r == *self,
    {
        Session {
            username: self.username.clone(),
            uuid: self.uuid.clone(),
            access_token: self.access_token.clone(),
        }
    }
}

/// A UUID shows its bytes in order, two digits each, with dashes between the groups.
pub proof fn law_uuid_shows_its_bytes_in_order(bytes: Seq<u8>, i: int)
    requires
        bytes.len() == 16,
        0 <= i < 16,
    ensures
        ({
            let dashes: int = if i < 4 {
                0
            } else if i < 6 {
                1
            } else if i < 8 {
                2
            } else if i < 10 {
                3
            } else {
                4
            };
            &&& uuid_text(bytes).len() == 36
            &&& uuid_text(bytes)[2 * i + dashes] == digit(bytes[i] as int / 16)
            &&& uuid_text(bytes)[2 * i + dashes + 1] == digit(bytes[i] as int % 16)
        }),
{
    let t = uuid_text(bytes);
    let (from, to, at) = if i < 4 {
        (0int, 4int, 0int)
    } else if i < 6 {
        (4int, 6int, 9int)
    } else if i < 8 {
        (6int, 8int, 14int)
    } else if i < 10 {
        (8int, 10int, 19int)
    } else {
        (10int, 16int, 24int)
    };
    let p = bytes.subrange(from, to);
    let k = 2 * (i - from);
    assert(t[at + k] == hex_text(p)[k]);
    assert(t[at + k + 1] == hex_text(p)[k + 1]);
    assert(p[i - from] == bytes[i]);
    assert(k / 2 == i - from && (k + 1) / 2 == i - from);
}

/// Stamping a digest changes the four bits of the version and the two of the variant alone.
pub proof fn law_stamp_keeps_the_rest_of_the_digest(digest: Seq<u8>, i: int)
    requires
        digest.len() == 16,
        0 <= i < 16,
    ensures
        stamped(digest).len() == 16,
        i != 6 && i != 8 ==> stamped(digest)[i] == digest[i],
        stamped(digest)[6] / 16 == 3,
        stamped(digest)[6] % 16 == digest[6] % 16,
        stamped(digest)[8] / 64 == 2,
        stamped(digest)[8] % 64 == digest[8] % 64,
{
    let v = digest[6];
    let w = digest[8];
    assert(((v & 0x0f) | 0x30) / 16 == 3u8 && ((v & 0x0f) | 0x30) % 16 == v % 16) by (bit_vector);
    assert(((w & 0x3f) | 0x80) / 64 == 2u8 && ((w & 0x3f) | 0x80) % 64 == w % 64) by (bit_vector);
}

/// An offline player is named by the bytes of `OfflinePlayer:` and the name.
pub proof fn law_offline_player_is_named_by_the_name(username: Seq<char>, text: Seq<char>)
    requires
        text == "OfflinePlayer:"@ + username,
    ensures
        offline_seed(username) == encode_utf8(text),
{
}

/// An offline account carries the name it was made for and no real token, and its UUID goes by the
/// name alone: two offline accounts of one name are the same to a server.
pub proof fn law_offline_account_goes_by_its_name(a: Account, b: Account, username: Seq<char>)
    requires
        is_offline(a, username),
        is_offline(b, username),
    ensures
        a.username@ == username,
        a.uuid@ == b.uuid@,
        a.uuid@ == uuid_text(stamped(md5_digest(encode_utf8("OfflinePlayer:"@ + username)))),
        a.access_token@ == "0"@,
        a.user_type@ == "legacy"@,
{
}

} // verus!
