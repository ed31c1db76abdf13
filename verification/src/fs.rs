use vstd::prelude::*;
use vstd::utf8::*;
use vstd::string::*;
use vstd::slice::*;
use vstd::array::*;

verus! {

broadcast use vstd::utf8::group_utf8_lib;

/// Size in bytes of one disk sector.
pub const SECTOR_SIZE: usize = 512;

/// Length of the fixed-size name field of a directory entry.
pub const NAME_FIELD_LEN: usize = 24;

/// Longest name, in bytes, that a directory entry keeps; the last byte of the
/// field is always a NUL terminator.
pub const MAX_NAME_LEN: usize = 23;

/// One entry of the FAT-like directory: a NUL-terminated name, the first
/// block of the file and its size.
#[derive(Clone, Copy, Debug)]
pub struct DirectoryEntry {
    pub name: [u8; 24],
    pub start_block: u32,
    pub size: u32,
    pub flags: u8,
}

/// The name field that `DirectoryEntry::new` stores for a name whose UTF-8
/// bytes are `bytes`: at most 23 leading bytes, then zeros.
pub open spec fn stored_name_field(bytes: Seq<u8>) -> Seq<u8> {
    let n = if bytes.len() < 23 { bytes.len() as int } else { 23 };
    Seq::new(24, |i: int| if i < n { bytes[i] } else { 0u8 })
}

/// `k` is where the text of `name` ends: no NUL before it, and either a NUL
/// at it or the end of the field.
pub open spec fn is_text_end(name: Seq<u8>, k: int) -> bool {
    &&& 0 <= k <= name.len()
    &&& forall|j: int| 0 <= j < k ==> name[j] != 0
    &&& (k < name.len() ==> name[k] == 0)
}

/// Length of the text stored in a NUL-terminated name field.
pub open spec fn text_len(name: Seq<u8>) -> int {
    choose|k: int| is_text_end(name, k)
}

/// The characters of "INVALID", returned for a name that is not UTF-8.
pub open spec fn invalid_name() -> Seq<char> {
    seq!['I', 'N', 'V', 'A', 'L', 'I', 'D']
}

/// What `name_as_str` shows for a name field: its text, decoded as UTF-8,
/// or "INVALID" when those bytes are not UTF-8.
pub open spec fn shown_name(name: Seq<u8>) -> Seq<char> {
    let text = name.take(text_len(name));
    if valid_utf8(text) {
        decode_utf8(text)
    } else {
        invalid_name()
    }
}

/// The end of the text of a name field is unique.
pub proof fn lemma_text_end_unique(name: Seq<u8>, a: int, b: int)
    requires
        is_text_end(name, a),
        is_text_end(name, b),
    ensures
        a == b,
{
    if a < b {
        assert(name[a] != 0);
    } else if b < a {
        assert(name[b] != 0);
    }
}

/// Every name field has an end of text, found by scanning from `k` on.
proof fn lemma_find_text_end(name: Seq<u8>, k: int) -> (e: int)
    requires
        0 <= k <= name.len(),
        forall|j: int| 0 <= j < k ==> name[j] != 0,
    ensures
        is_text_end(name, e),
    decreases name.len() - k,
{
    if k == name.len() || name[k] == 0 {
        k
    } else {
        lemma_find_text_end(name, k + 1)
    }
}

/// `text_len` is the unique end of the text.
pub proof fn lemma_text_len(name: Seq<u8>, k: int)
    requires
        is_text_end(name, k),
    ensures
        text_len(name) == k,
{
    lemma_text_end_unique(name, k, text_len(name));
}

/// Decodes a byte slice as UTF-8 (`core::str::from_utf8`): `Some` exactly
/// when the bytes are valid UTF-8, and then a `str` made of those bytes.
#[verifier::external_body]
fn str_from_utf8(v: &[u8]) -> (r: Option<&str>)
    ensures
        r is Some <==> valid_utf8(v@),
        r matches Some(s) ==> s.spec_bytes() == v@,
{
    core::str::from_utf8(v).ok()
}

/// A name field whose text is not UTF-8 shows as "INVALID"; one whose text
/// is UTF-8 shows that text.
pub proof fn lemma_shown_name_cases(name: Seq<u8>)
    ensures
        !valid_utf8(name.take(text_len(name))) ==> shown_name(name) == seq![
            'I',
            'N',
            'V',
            'A',
            'L',
            'I',
            'D',
        ],
        valid_utf8(name.take(text_len(name))) ==> encode_utf8(shown_name(name)) == name.take(
            text_len(name),
        ),
{
}

/// A name of at most 23 bytes with no NUL byte reads back unchanged from the
/// directory entry made for it: `name_as_str` of `new(s, ..)` is `s`.
pub proof fn lemma_name_round_trip(name: Seq<char>)
    requires
        encode_utf8(name).len() <= 23,
        forall|i: int| 0 <= i < encode_utf8(name).len() ==> encode_utf8(name)[i] != 0,
    ensures
        shown_name(stored_name_field(encode_utf8(name))) == name,
{
    let bytes = encode_utf8(name);
    let field = stored_name_field(bytes);
    assert(is_text_end(field, bytes.len() as int));
    lemma_text_len(field, bytes.len() as int);
    assert(field.take(bytes.len() as int) =~= bytes);
}

/// The name field made from the bytes `b` of a name is 24 bytes long; it
/// starts with the first `min(b.len(), 23)` bytes of `b` and is zero after
/// them, so a name of 23 bytes or more keeps exactly its first 23.
pub proof fn lemma_stored_name_field(b: Seq<u8>)
    ensures
        stored_name_field(b).len() == 24,
        forall|i: int| 0 <= i < b.len() && i < 23 ==> stored_name_field(b)[i] == b[i],
        forall|i: int| b.len() <= i < 24 ==> stored_name_field(b)[i] == 0,
        forall|i: int| 23 <= i < 24 ==> stored_name_field(b)[i] == 0,
        b.len() >= 23 ==> stored_name_field(b).take(23) == b.take(23),
        b.len() < 23 ==> stored_name_field(b).take(b.len() as int) == b,
{
    if b.len() >= 23 {
        assert(stored_name_field(b).take(23) =~= b.take(23));
    } else {
        assert(stored_name_field(b).take(b.len() as int) =~= b);
    }
}

/// Whatever name a directory entry was made from, the text it shows, when it
/// is not "INVALID" for want of UTF-8, is a prefix of that name's bytes of
/// at most 23 bytes.
pub proof fn lemma_shown_name_is_prefix(bytes: Seq<u8>)
    requires
        valid_utf8(stored_name_field(bytes).take(text_len(stored_name_field(bytes)))),
    ensures
        encode_utf8(shown_name(stored_name_field(bytes))).len() <= 23,
        encode_utf8(shown_name(stored_name_field(bytes))) =~= bytes.take(
            encode_utf8(shown_name(stored_name_field(bytes))).len() as int,
        ),
{
    let field = stored_name_field(bytes);
    let n = if bytes.len() < 23 { bytes.len() as int } else { 23 };
    let k = lemma_find_text_end(field, 0);
    lemma_text_len(field, k);
    assert(field[n] == 0);
    assert(k <= n);
    assert(field.take(k) =~= bytes.take(k));
}

impl DirectoryEntry {
    /// A directory entry named `name_str` (cut to its first 23 bytes),
    /// starting at `start_block`, `size` bytes long, with the "in use" flag.
    pub fn new(name_str: &str, start_block: u32, size: u32) -> (e: Self)
        ensures
            e.name@ == stored_name_field(name_str.spec_bytes()),
            e.name@[23] == 0,
            e.start_block == start_block,
            e.size == size,
            e.flags == 0x01,
    {
        let mut name = [0u8; 24];
        let bytes = name_str.as_bytes();
        let len: usize = if bytes.len() < MAX_NAME_LEN { bytes.len() } else { MAX_NAME_LEN };
        let mut i: usize = 0;
        while i < len
            invariant
                len <= 23,
                len <= bytes@.len(),
                i <= len,
                bytes@ == name_str.spec_bytes(),
                forall|j: int| 0 <= j < i ==> name@[j] == bytes@[j],
                forall|j: int| i <= j < 24 ==> name@[j] == 0,
            decreases len - i,
        {
            name[i] = bytes[i];
            i = i + 1;
        }
        assert(name@ =~= stored_name_field(name_str.spec_bytes()));
        DirectoryEntry { name, start_block, size, flags: 0x01 }
    }

    /// The name as text: the bytes before the first NUL, decoded as UTF-8, or
    /// "INVALID" when they are not UTF-8.
    pub fn name_as_str(&self) -> (r: &str)
        ensures
            r@ == shown_name(self.name@),
    {
        let mut len: usize = 0;
        while len < NAME_FIELD_LEN && self.name[len] != 0
            invariant
                len <= 24,
                forall|j: int| 0 <= j < len ==> self.name@[j] != 0,
            decreases 24 - len,
        {
            len = len + 1;
        }
        proof {
            lemma_text_len(self.name@, len as int);
        }
        let text = slice_subrange(array_as_slice(&self.name), 0, len);
        assert(text@ == self.name@.take(len as int));
        match str_from_utf8(text) {
            Some(s) => {
                assert(decode_utf8(encode_utf8(s@)) == s@);
                s
            },
            None => {
                let invalid = "INVALID";
                proof {
                    reveal_strlit("INVALID");
                }
                assert(invalid@ =~= invalid_name());
                invalid
            },
        }
    }
}


/// The in-memory file system that serves the kernel's files.
pub struct SimpleFS;

/// Whether two byte slices hold the same bytes.
fn bytes_equal(a: &[u8], b: &[u8]) -> (r: bool)
    ensures
        r == (a@ == b@),
{
    if a.len() != b.len() {
        return false;
    }
    let mut i: usize = 0;
    while i < a.len()
        invariant
            a@.len() == b@.len(),
            i <= a@.len(),
            forall|j: int| 0 <= j < i ==> a@[j] == b@[j],
        decreases a@.len() - i,
    {
        if a[i] != b[i] {
            return false;
        }
        i = i + 1;
    }
    assert(a@ =~= b@);
    true
}

/// Appends the bytes of `s` to `v`.
fn push_bytes(v: &mut Vec<u8>, s: &[u8])
    ensures
        final(v)@ == old(v)@ + s@,
{
    let mut i: usize = 0;
    while i < s.len()
        invariant
            i <= s@.len(),
            v@ == old(v)@ + s@.take(i as int),
        decreases s@.len() - i,
    {
        v.push(s[i]);
        assert(s@.take(i as int).push(s@[i as int]) =~= s@.take(i + 1));
        i = i + 1;
    }
    assert(s@.take(s@.len() as int) =~= s@);
}

impl SimpleFS {
    /// The contents of the file `name`: the file "kernel.txt" holds the text
    /// "Hello from file kernel.txt stored on ATA drive!"; there is no other.
    pub fn read_file(name: &str) -> (r: Option<Vec<u8>>)
        ensures
            r is Some <==> name@ == "kernel.txt"@,
            r matches Some(v) ==> v@ == "Hello from file ".spec_bytes() + name.spec_bytes()
                + " stored on ATA drive!".spec_bytes(),
    {
        let known = "kernel.txt";
        let same = bytes_equal(name.as_bytes(), known.as_bytes());
        proof {
            assert(decode_utf8(encode_utf8(name@)) == name@);
            assert(decode_utf8(encode_utf8(known@)) == known@);
        }
        if same {
            let mut v: Vec<u8> = Vec::new();
            push_bytes(&mut v, "Hello from file ".as_bytes());
            push_bytes(&mut v, name.as_bytes());
            push_bytes(&mut v, " stored on ATA drive!".as_bytes());
            return Some(v);
        }
        None
    }
}

} // verus!
