//! Page requests, paged responses and the in-memory slicing of a list into
//! pages.
//!
//! The arithmetic of paging is stated once, over natural numbers and
//! sequences ([`offset_of`], [`page_count`], [`resolved_page`], [`window`]);
//! the executable functions are specified against those definitions.

use vstd::prelude::*;

verus! {

/// Why a page request could not be built.
#[derive(Debug, Clone, Copy, PartialEq, Eq, Structural)]
pub enum PreconditionViolation {
    /// The page number was zero; pages are numbered from one.
    PageIsZero,
    /// The page size was zero.
    SizeIsZero,
}

/// Number of rows that precede page `number` when every page holds `size`
/// rows.
pub open spec fn offset_of(number: nat, size: nat) -> nat {
    if number <= 1 {
        0
    } else {
        ((number - 1) * size) as nat
    }
}

/// Number of pages that a list of `len` rows is cut into: the full pages,
/// and one more for the rows left over where there are any. The empty list
/// has one page, which is empty; every page of another list holds a row.
pub open spec fn page_count(len: nat, size: nat) -> nat {
    if len > 0 && len % size == 0 {
        len / size
    } else {
        len / size + 1
    }
}

/// The page that is served when page `number` of a list of `len` rows is
/// asked for: the only page of a list shorter than one page, otherwise the
/// requested page, or the last page that holds rows where the request lies
/// beyond it.
pub open spec fn resolved_page(len: nat, number: nat, size: nat) -> nat {
    if len < size {
        1
    } else if number > page_count(len, size) {
        page_count(len, size)
    } else {
        number
    }
}

/// The rows served for page `number`: the whole of a list shorter than one
/// page, otherwise the `size` rows that follow the resolved page's offset, or
/// as many of them as the list still holds.
pub open spec fn window<T>(data: Seq<T>, number: nat, size: nat) -> Seq<T> {
    if data.len() < size {
        data
    } else {
        let start = offset_of(resolved_page(data.len(), number, size), size);
        let end = if start + size <= data.len() {
            start + size
        } else {
            data.len()
        };
        data.subrange(start as int, end as int)
    }
}

/// The rows that a storage engine hands out when it skips `skip` rows of a
/// list and then takes `limit` rows, or as many as are left.
pub open spec fn rows_at<T>(rows: Seq<T>, skip: nat, limit: nat) -> Seq<T> {
    let start = if skip <= rows.len() {
        skip
    } else {
        rows.len()
    };
    let end = if start + limit <= rows.len() {
        start + limit
    } else {
        rows.len()
    };
    rows.subrange(start as int, end as int)
}

/// A page request: which page, and how many rows a page holds. Both are at
/// least one.
#[derive(Debug)]
pub struct Page {
    page: usize,
    size: usize,
}

impl Page {
    #[verifier::type_invariant]
    spec fn well_formed(self) -> bool {
        self.page >= 1 && self.size >= 1
    }

    /// The requested page number, as contracts see it.
    pub closed spec fn spec_number(&self) -> usize {
        self.page
    }

    /// The page size, as contracts see it.
    pub closed spec fn spec_page_size(&self) -> usize {
        self.size
    }

    /// The row-skip count of this request, as contracts see it.
    pub open spec fn spec_offset(&self) -> nat {
        offset_of(self.spec_number() as nat, self.spec_page_size() as nat)
    }

    /// Builds a request for page `page` with `size` rows per page. Pages are
    /// numbered from one and hold at least one row; anything else is refused.
    pub fn new(page: usize, size: usize) -> (res: Result<Page, PreconditionViolation>)
        ensures
            res is Ok <==> page >= 1 && size >= 1,
            res matches Ok(p) ==> p.spec_number() == page && p.spec_page_size() == size,
            res matches Err(e) ==> e == (if page == 0 {
                PreconditionViolation::PageIsZero
            } else {
                PreconditionViolation::SizeIsZero
            }),
    {
        if page == 0 {
            Err(PreconditionViolation::PageIsZero)
        } else if size == 0 {
            Err(PreconditionViolation::SizeIsZero)
        } else {
            Ok(Page { page, size })
        }
    }

    /// The requested page number.
    #[verifier::when_used_as_spec(spec_number)]
    pub fn number(&self) -> (n: usize)
        ensures
            n == self.spec_number(),
            n >= 1,
    {
        proof {
            use_type_invariant(self);
        }
        self.page
    }

    /// The number of rows a page holds.
    #[verifier::when_used_as_spec(spec_page_size)]
    pub fn page_size(&self) -> (n: usize)
        ensures
            n == self.spec_page_size(),
            n >= 1,
    {
        proof {
            use_type_invariant(self);
        }
        self.size
    }

    /// The number of rows a storage engine skips to reach this page: zero for
    /// the first page, otherwise `(page - 1) * size`.
    pub fn offset(&self) -> (skip: usize)
        requires
            self.spec_offset() <= usize::MAX,
        ensures
            skip == self.spec_offset(),
            self.number() <= 1 ==> skip == 0,
            self.number() > 1 ==> skip == (self.number() - 1) * self.page_size(),
    {
        if self.page <= 1 {
            0
        } else {
            (self.page - 1) * self.size
        }
    }

    /// The row-skip count where the machine can hold it, and `None` where
    /// `(page - 1) * size` does not fit in `usize`.
    pub fn checked_offset(&self) -> (skip: Option<usize>)
        ensures
            skip is Some <==> self.spec_offset() <= usize::MAX,
            skip matches Some(n) ==> n == self.spec_offset(),
    {
        if self.page <= 1 {
            Some(0)
        } else {
            (self.page - 1).checked_mul(self.size)
        }
    }
}

impl Clone for Page {
    fn clone(&self) -> (p: Page)
        ensures
            p == *self,
    {
        proof {
            use_type_invariant(self);
        }
        Page { page: self.page, size: self.size }
    }
}

impl Default for Page {
    /// The first page, ten rows long.
    fn default() -> (p: Page)
        ensures
            p.spec_number() == 1,
            p.spec_page_size() == 10,
    {
        Page { page: 1, size: 10 }
    }
}

/// A page request as a caller words it: two plain numbers, not yet checked.
/// Where the caller names none, it is the first page of a hundred rows.
#[derive(Debug, Clone, Copy, PartialEq, Eq, Structural)]
pub struct PageArgs {
    pub page: usize,
    pub size: usize,
}

impl PageArgs {
    /// The page request that the numbers describe, if both are at least one.
    pub fn into_page(self) -> (res: Result<Page, PreconditionViolation>)
        ensures
            res is Ok <==> self.page >= 1 && self.size >= 1,
            res matches Ok(p) ==> p.spec_number() == self.page && p.spec_page_size() == self.size,
            res matches Err(e) ==> e == (if self.page == 0 {
                PreconditionViolation::PageIsZero
            } else {
                PreconditionViolation::SizeIsZero
            }),
    {
        Page::new(self.page, self.size)
    }
}

impl Default for PageArgs {
    fn default() -> (args: PageArgs)
        ensures
            args == (PageArgs { page: 1, size: 100 }),
    {
        PageArgs { page: 1, size: 100 }
    }
}

/// A paged response: the number of the page that was served, and its rows.
#[derive(Debug)]
pub struct Paged<T> {
    pub page: usize,
    pub data: Vec<T>,
}

impl<T: Clone> Clone for Paged<T> {
    /// The same page number, and a clone of each row.
    fn clone(&self) -> (paged: Paged<T>)
        ensures
            paged.page == self.page,
            paged.data@.len() == self.data@.len(),
            forall|i: int|
                0 <= i < self.data@.len() ==> cloned(#[trigger] self.data@[i], paged.data@[i]),
    {
        Paged { page: self.page, data: self.data.clone() }
    }
}

impl<T> Default for Paged<T> {
    /// An empty first page.
    fn default() -> (p: Paged<T>)
        ensures
            p.page == 1,
            p.data@ == Seq::<T>::empty(),
    {
        Paged { page: 1, data: Vec::new() }
    }
}

impl<T> Paged<T> {
    /// The number of rows on this page.
    pub fn len(&self) -> (n: usize)
        ensures
            n == self.data@.len(),
    {
        self.data.len()
    }
}

/// A list that can be served page by page.
pub trait Paginable {
    type Output;

    /// The rows of the list, in order.
    spec fn items(&self) -> Seq<Self::Output>;

    /// Returns the subset of the rows that page `page` asks for. A request
    /// beyond the last page that holds rows is answered with that page, so
    /// that only the empty list is answered with an empty page. The rows
    /// served are those from the offset of the served page on, one page of
    /// them or as many as the list still holds.
    fn get_page(&self, page: &Page) -> (paged: Paged<Self::Output>)
        ensures
            paged.page == resolved_page(
                self.items().len(),
                page.number() as nat,
                page.page_size() as nat,
            ),
            1 <= paged.page <= page.number(),
            self.items().len() > 0 ==> paged.data@.len() > 0,
            self.items().len() > 0 ==> (paged.page - 1) * page.page_size() < self.items().len(),
            paged.data@.len() == window(
                self.items(),
                page.number() as nat,
                page.page_size() as nat,
            ).len(),
            paged.data@.len() <= page.page_size(),
            self.items().len() < page.page_size() ==> paged.page == 1 && paged.data@.len()
                == self.items().len(),
    ;

    /// Tags rows that were already cut to one page with that page's number.
    /// The rows are kept as they are; the caller has bounded them by the page
    /// size.
    fn to_paged(self, page: Page) -> (paged: Paged<Self::Output>)
        requires
            self.items().len() <= page.page_size(),
        ensures
            paged.page == page.number(),
            paged.data@ == self.items(),
    ;
}

impl<T: Clone> Paginable for Vec<T> {
    type Output = T;

    open spec fn items(&self) -> Seq<T> {
        self@
    }

    /// Each row of the result is a clone of the row at the same place in
    /// [`window`], which is the run of rows that starts at the offset of the
    /// served page.
    fn get_page(&self, page: &Page) -> (paged: Paged<T>)
        ensures
            forall|i: int|
                0 <= i < paged.data@.len() ==> cloned(
                    #[trigger] window(self@, page.number() as nat, page.page_size() as nat)[i],
                    paged.data@[i],
                ),
            forall|i: int|
                0 <= i < paged.data@.len() ==> cloned(
                    self@[(paged.page - 1) * page.page_size() + i],
                    #[trigger] paged.data@[i],
                ),
            paged.data@.len() == (if (paged.page - 1) * page.page_size() + page.page_size()
                <= self@.len() {
                page.page_size() as int
            } else {
                self@.len() - (paged.page - 1) * page.page_size()
            }),
            self@.len() < page.page_size() ==> forall|i: int|
                0 <= i < self@.len() ==> cloned(#[trigger] self@[i], paged.data@[i]),
    {
        let size = page.page_size();
        let asked = page.number();
        let len = self.len();
        let ghost rows = window(self@, asked as nat, size as nat);
        let (number, start, end): (usize, usize, usize) = if len < size {
            (1, 0, len)
        } else {
            let full = len / size;
            proof {
                vstd::arithmetic::div_mod::lemma_div_non_zero(len as int, size as int);
            }
            // the pages before the last one that holds rows
            let skipped = if len % size == 0 {
                full - 1
            } else {
                full
            };
            let before = if asked - 1 > skipped {
                skipped
            } else {
                asked - 1
            };
            proof {
                lemma_last_page_holds_rows(len as nat, size as nat);
                assert(skipped + 1 == page_count(len as nat, size as nat));
                lemma_offset_monotonic(before as nat, skipped as nat, size as nat);
            }
            let start = before * size;
            let end = if len - start < size {
                len
            } else {
                start + size
            };
            proof {
                let served = resolved_page(len as nat, asked as nat, size as nat);
                assert(served == before + 1);
                assert(offset_of(served, size as nat) == start) by {
                    if before == 0 {
                        vstd::arithmetic::mul::lemma_mul_basics(size as int);
                    }
                }
            }
            (before + 1, start, end)
        };
        assert(start == (number - 1) * size) by (nonlinear_arith)
            requires
                number == 1 && start == 0 || start == (number - 1) * size,
        ;
        assert(1 <= number <= asked);
        assert(rows == self@.subrange(start as int, end as int)) by {
            if len < size {
                assert(self@.subrange(0, len as int) == self@);
            }
        }
        let mut data: Vec<T> = Vec::new();
        let mut i: usize = start;
        while i < end
            invariant
                start <= i <= end <= len,
                len == self@.len(),
                rows == self@.subrange(start as int, end as int),
                data@.len() == i - start,
                forall|k: int| 0 <= k < data@.len() ==> cloned(#[trigger] rows[k], data@[k]),
            decreases end - i,
        {
            let row = self[i].clone();
            proof {
                assert(rows[i - start] == self@[i as int]);
            }
            data.push(row);
            i += 1;
        }
        assert forall|k: int| 0 <= k < data@.len() implies cloned(
            self@[start + k],
            #[trigger] data@[k],
        ) by {
            assert(rows[k] == self@[start + k]);
        }
        Paged { page: number, data }
    }

    fn to_paged(self, page: Page) -> (paged: Paged<T>) {
        Paged { page: page.number(), data: self }
    }
}

/// The full pages of a list lie within the list, and what follows them is
/// the rest of the division.
proof fn lemma_last_offset_in_range(len: nat, size: nat)
    requires
        size >= 1,
    ensures
        (len / size) * size <= len,
        len - (len / size) * size == len % size,
{
    vstd::arithmetic::div_mod::lemma_fundamental_div_mod(len as int, size as int);
    vstd::arithmetic::mul::lemma_mul_is_commutative((len / size) as int, size as int);
}

/// The last page of a list that is not empty starts inside the list and
/// holds at least one row and at most a page of rows.
pub proof fn lemma_last_page_holds_rows(len: nat, size: nat)
    requires
        size >= 1,
        len >= 1,
    ensures
        page_count(len, size) >= 1,
        len < size ==> page_count(len, size) == 1,
        (page_count(len, size) - 1) * size < len,
        len - (page_count(len, size) - 1) * size <= size,
        offset_of(page_count(len, size), size) == (page_count(len, size) - 1) * size,
{
    let full = len / size;
    lemma_last_offset_in_range(len, size);
    vstd::arithmetic::div_mod::lemma_mod_bound(len as int, size as int);
    if len < size {
        vstd::arithmetic::div_mod::lemma_basic_div(len as int, size as int);
        vstd::arithmetic::div_mod::lemma_small_mod(len, size);
        assert(page_count(len, size) == 1);
        assert((1 - 1) * size == 0) by (nonlinear_arith);
    } else {
        assert(full >= 1) by {
            vstd::arithmetic::div_mod::lemma_div_non_zero(len as int, size as int);
        }
        if len % size == 0 {
            assert(page_count(len, size) == full);
            assert((full - 1) * size == full * size - size) by (nonlinear_arith);
        } else {
            assert(page_count(len, size) == full + 1);
            assert((full + 1 - 1) * size == full * size);
        }
    }
    if page_count(len, size) == 1 {
        assert((1 - 1) * size == 0) by (nonlinear_arith);
    }
}

/// Offsets grow with the number of pages skipped.
proof fn lemma_offset_monotonic(a: nat, b: nat, size: nat)
    requires
        a <= b,
    ensures
        a * size <= b * size,
{
    vstd::arithmetic::mul::lemma_mul_inequality(a as int, b as int, size as int);
}

/// A page never holds more rows than the page size.
pub proof fn lemma_window_bounded<T>(data: Seq<T>, number: nat, size: nat)
    requires
        number >= 1,
        size >= 1,
    ensures
        window(data, number, size).len() <= size,
{
    if data.len() >= size {
        lemma_window_holds_rows(data, number, size);
    }
}

/// The rows served of a list that is not empty start inside the list, at the
/// offset of the served page, and there is at least one of them: no request
/// is answered with an empty page.
pub proof fn lemma_window_holds_rows<T>(data: Seq<T>, number: nat, size: nat)
    requires
        number >= 1,
        size >= 1,
        data.len() > 0,
    ensures
        1 <= resolved_page(data.len(), number, size) <= number,
        resolved_page(data.len(), number, size) <= page_count(data.len(), size),
        offset_of(resolved_page(data.len(), number, size), size) < data.len(),
        window(data, number, size).len() > 0,
        window(data, number, size) == rows_at(
            data,
            offset_of(resolved_page(data.len(), number, size), size),
            size,
        ),
{
    let len = data.len();
    let served = resolved_page(len, number, size);
    lemma_last_page_holds_rows(len, size);
    if len >= size {
        lemma_offset_monotonic((served - 1) as nat, (page_count(len, size) - 1) as nat, size);
        if served == 1 {
            assert((1 - 1) * size == 0) by (nonlinear_arith);
        }
    } else {
        assert(data.subrange(0, len as int) == data);
    }
}

/// A list shorter than one page is served whole, as page one, whatever page
/// was asked for.
pub proof fn lemma_short_list_is_one_page<T>(data: Seq<T>, number: nat, size: nat)
    requires
        data.len() < size,
    ensures
        resolved_page(data.len(), number, size) == 1,
        window(data, number, size) == data,
{
}

/// A row that is appended to a list of fewer than `size` rows is on the first
/// page of the list, as its last row. Once the first page is full, a new row
/// falls on a later page.
pub proof fn lemma_appended_row_is_on_first_page<T>(data: Seq<T>, row: T, size: nat)
    requires
        data.len() < size,
    ensures
        resolved_page(data.push(row).len(), 1, size) == 1,
        window(data.push(row), 1, size) == data.push(row),
        window(data.push(row), 1, size).last() == row,
        window(data.push(row), 1, size).contains(row),
{
    let appended = data.push(row);
    lemma_last_page_holds_rows(appended.len(), size);
    if appended.len() >= size {
        assert(window(appended, 1, size) == appended.subrange(0, size as int));
        assert(appended.subrange(0, size as int) == appended);
    }
    assert(appended[appended.len() - 1] == row);
}

/// A request that lies beyond the rows of a list, so that the rows before
/// the requested page are all the rows there are, asks for a page beyond the
/// last one.
pub proof fn lemma_request_beyond_the_rows(len: nat, number: nat, size: nat)
    requires
        size >= 1,
        len >= 1,
        number >= 1,
        (number - 1) * size >= len,
    ensures
        number > page_count(len, size),
{
    lemma_last_page_holds_rows(len, size);
    if number <= page_count(len, size) {
        lemma_offset_monotonic((number - 1) as nat, (page_count(len, size) - 1) as nat, size);
    }
}

/// A request for the last page of a list that is not empty, or for a page
/// beyond it, is answered with the last page, and that page is not empty: it
/// holds the rows from its offset to the end of the list, the last row of
/// the list among them.
pub proof fn lemma_overshoot_serves_last_rows<T>(data: Seq<T>, number: nat, size: nat)
    requires
        size >= 1,
        data.len() > 0,
        number >= page_count(data.len(), size),
    ensures
        resolved_page(data.len(), number, size) == page_count(data.len(), size),
        window(data, number, size).len() > 0,
        window(data, number, size) == data.subrange(
            (page_count(data.len(), size) - 1) * size,
            data.len() as int,
        ),
        window(data, number, size).last() == data.last(),
{
    let len = data.len();
    lemma_last_page_holds_rows(len, size);
    lemma_window_holds_rows(data, number, size);
    if len < size {
        assert(data.subrange(0, len as int) == data);
    }
}

} // verus!
