use vstd::prelude::*;

verus! {

/// Virtual address of the page that holds the first user-mode program.
pub const USER_PAGE_ADDR: u64 = 0x0000_1000_0000_0000;

/// How many leading bytes of the boot sector the self-test shows.
pub const PREVIEW_LEN: usize = 90;

/// A byte that prints as a visible ASCII character or a space.
pub open spec fn is_printable(b: u8) -> bool {
    32 <= b <= 126
}

/// The printable bytes of `s`, in order.
pub open spec fn printable_bytes(s: Seq<u8>) -> Seq<u8>
    decreases s.len(),
{
    if s.len() == 0 {
        Seq::empty()
    } else if is_printable(s.last()) {
        printable_bytes(s.drop_last()).push(s.last())
    } else {
        printable_bytes(s.drop_last())
    }
}

/// The part of a sector that the self-test looks at: its first 90 bytes.
pub open spec fn preview_window(sector: Seq<u8>) -> Seq<u8> {
    if sector.len() < PREVIEW_LEN {
        sector
    } else {
        sector.take(PREVIEW_LEN as int)
    }
}

/// What the ATA self-test shows of a sector read from disk: the printable
/// bytes among its first 90, or `None` when there is none (binary data).
pub fn sector_preview(sector: &[u8]) -> (r: Option<Vec<u8>>)
    ensures
        r is Some <==> printable_bytes(preview_window(sector@)).len() > 0,
        r matches Some(v) ==> v@ == printable_bytes(preview_window(sector@)),
{
    let n: usize = if sector.len() < PREVIEW_LEN { sector.len() } else { PREVIEW_LEN };
    let mut shown: Vec<u8> = Vec::new();
    let mut i: usize = 0;
    while i < n
        invariant
            n <= sector@.len(),
            n == preview_window(sector@).len(),
            i <= n,
            shown@ == printable_bytes(sector@.take(i as int)),
        decreases n - i,
    {
        let b = sector[i];
        assert(sector@.take(i + 1).drop_last() =~= sector@.take(i as int));
        if 32 <= b && b <= 126 {
            shown.push(b);
        }
        i = i + 1;
    }
    assert(sector@.take(n as int) =~= preview_window(sector@));
    if shown.len() > 0 {
        Some(shown)
    } else {
        None
    }
}

/// Every byte that the preview shows is printable, and it shows no more
/// bytes than the window holds.
pub proof fn lemma_preview_only_printable(s: Seq<u8>)
    ensures
        printable_bytes(s).len() <= s.len(),
        forall|i: int|
            0 <= i < printable_bytes(s).len() ==> is_printable(#[trigger] printable_bytes(s)[i]),
    decreases s.len(),
{
    if s.len() > 0 {
        lemma_preview_only_printable(s.drop_last());
    }
}

/// The preview keeps, in order, exactly the bytes from 32 (space) to 126
/// (`~`) of the window it looks at, and drops every other byte.
pub proof fn lemma_preview_keeps_visible_ascii(s: Seq<u8>)
    ensures
        printable_bytes(s) == s.filter(|b: u8| 32 <= b && b <= 126),
    decreases s.len(),
{
    reveal(Seq::filter);
    if s.len() > 0 {
        lemma_preview_keeps_visible_ascii(s.drop_last());
    }
}

/// The window of the preview is the first 90 bytes of the sector, or the
/// whole sector when it is shorter.
pub proof fn lemma_preview_window_is_first_90_bytes(sector: Seq<u8>)
    ensures
        preview_window(sector).len() == if sector.len() < 90 { sector.len() } else { 90 },
        forall|i: int| 0 <= i < preview_window(sector).len() ==> preview_window(sector)[i] == sector[i],
{
}

} // verus!
