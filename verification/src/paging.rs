//! Pages of a list: page `p` of size `n` skips `p * n` entries and takes the
//! next `n`.
use vstd::prelude::*;

verus! {

/// Where page `page` starts in a list of `len` entries.
pub open spec fn page_start(len: nat, page: nat, page_size: nat) -> nat {
    if page * page_size <= len {
        page * page_size
    } else {
        len
    }
}

/// Where page `page` ends in a list of `len` entries.
pub open spec fn page_end(len: nat, page: nat, page_size: nat) -> nat {
    if page * page_size + page_size <= len {
        page * page_size + page_size
    } else {
        len
    }
}

/// Page `page` of `s`.
pub open spec fn page_of<T>(s: Seq<T>, page: nat, page_size: nat) -> Seq<T> {
    s.subrange(
        page_start(s.len(), page, page_size) as int,
        page_end(s.len(), page, page_size) as int,
    )
}

/// The first `pages` pages of `s`, one after the other.
pub open spec fn pages_up_to<T>(s: Seq<T>, page_size: nat, pages: nat) -> Seq<T>
    decreases pages,
{
    if pages == 0 {
        Seq::<T>::empty()
    } else {
        pages_up_to(s, page_size, (pages - 1) as nat) + page_of(s, (pages - 1) as nat, page_size)
    }
}

/// A page starts where the page before it ends, and never after its own end.
pub proof fn lemma_page_bounds(len: nat, page: nat, page_size: nat)
    ensures
        page_start(len, page, page_size) <= page_end(len, page, page_size) <= len,
        page_end(len, page, page_size) == page_start(len, page + 1, page_size),
        page_end(len, page, page_size) - page_start(len, page, page_size) <= page_size,
{
    assert((page + 1) * page_size == page * page_size + page_size) by (nonlinear_arith);
    assert(page * page_size >= 0) by (nonlinear_arith);
}

/// The first `pages` pages, one after the other, are the start of the list up
/// to the end of the last of them.
pub proof fn lemma_pages_prefix<T>(s: Seq<T>, page_size: nat, pages: nat)
    ensures
        pages_up_to(s, page_size, pages) == s.subrange(
            0,
            page_start(s.len(), pages, page_size) as int,
        ),
    decreases pages,
{
    if pages == 0 {
        assert(0 * page_size == 0) by (nonlinear_arith);
        assert(s.subrange(0, 0) =~= Seq::<T>::empty());
    } else {
        let before = (pages - 1) as nat;
        lemma_pages_prefix(s, page_size, before);
        lemma_page_bounds(s.len(), before, page_size);
        assert(s.subrange(0, page_start(s.len(), before, page_size) as int) + page_of(
            s,
            before,
            page_size,
        ) =~= s.subrange(0, page_start(s.len(), pages, page_size) as int));
    }
}

/// Pages of a fixed size of at least one, taken until the list is used up and
/// put one after the other, give the list back: every entry once, in order.
pub proof fn lemma_pages_round_trip<T>(s: Seq<T>, page_size: nat, pages: nat)
    requires
        page_size >= 1,
        pages * page_size >= s.len(),
    ensures
        pages_up_to(s, page_size, pages) == s,
{
    lemma_pages_prefix(s, page_size, pages);
    assert(s.subrange(0, s.len() as int) =~= s);
}

/// The positions at which page `page` of a list of `len` entries starts and
/// ends.
pub fn page_bounds(len: usize, page: u32, page_size: u32) -> (r: (usize, usize))
    ensures
        r.0 == page_start(len as nat, page as nat, page_size as nat),
        r.1 == page_end(len as nat, page as nat, page_size as nat),
        r.0 <= r.1 <= len,
{
    assert(page as nat * page_size as nat <= 0xffff_ffff * 0xffff_ffff) by (nonlinear_arith)
        requires
            page <= 0xffff_ffff,
            page_size <= 0xffff_ffff,
    ;
    let skip: u64 = page as u64 * page_size as u64;
    if skip >= len as u64 {
        return (len, len);
    }
    let start: usize = skip as usize;
    let room: usize = len - start;
    if page_size as u64 >= room as u64 {
        (start, len)
    } else {
        (start, start + page_size as usize)
    }
}

} // verus!
