//! One page of a listing: the bounds-checked slice of records and the
//! numbers needed to navigate the others.
use vstd::prelude::*;

verus! {

/// `ceil(total / size)`.
pub open spec fn ceil_div(total: int, size: int) -> int
    recommends
        size > 0,
{
    (total + size - 1) / size
}

/// Whether a page can be built from these numbers and `count` records.
pub open spec fn page_accepts(page_num: u64, page_size: u64, record_total: u64, count: nat) -> bool {
    &&& page_size > 0
    &&& record_total > 0 ==> count <= page_size && 1 <= page_num <= ceil_div(
        record_total as int,
        page_size as int,
    )
}

/// Why a page could not be built.
#[derive(Clone, Copy, Debug, PartialEq, Eq, Structural)]
pub enum PageError {
    /// The page size was zero.
    ZeroPageSize,
    /// More records were given than fit on one page.
    ExcessRecords,
    /// The page number lies outside `1..=page_total`.
    PageOutOfRange { page_num: u64, page_total: u64 },
}

impl PageError {
    /// A short description of the failure.
    pub open spec fn spec_message(self) -> Seq<char> {
        match self {
            PageError::ZeroPageSize => "Page size must be greater than zero"@,
            PageError::ExcessRecords => "Number of records exceeds the specified page size"@,
            PageError::PageOutOfRange { .. } => "Invalid page number. It must be between 1 and page_total"@,
        }
    }

    pub fn message(&self) -> (r: String)
        ensures
            r@ == self.spec_message(),
    {
        match self {
            PageError::ZeroPageSize => String::from_str("Page size must be greater than zero"),
            PageError::ExcessRecords => String::from_str(
                "Number of records exceeds the specified page size",
            ),
            PageError::PageOutOfRange { .. } => String::from_str(
                "Invalid page number. It must be between 1 and page_total",
            ),
        }
    }
}

/// One page of a listing.
pub struct Page<T> {
    /// The page shown, counted from 1.
    pub page_num: u64,
    pub page_size: u64,
    pub record_total: u64,
    pub page_total: u64,
    pub records: Vec<T>,
}

impl<T> Page<T> {
    /// What holds of every page that `new` builds.
    pub open spec fn wf(&self) -> bool {
        &&& self.page_size >= 1
        &&& self.record_total == 0 ==> self.page_num == 1 && self.page_total == 1
            && self.records@.len() == 0
        &&& self.record_total > 0 ==> {
            &&& self.page_total == ceil_div(self.record_total as int, self.page_size as int)
            &&& 1 <= self.page_num <= self.page_total
            &&& self.records@.len() <= self.page_size
        }
    }

    pub fn new(page_num: u64, page_size: u64, record_total: u64, records: Vec<T>) -> (r: Result<
        Self,
        PageError,
    >)
        ensures
            page_size == 0 ==> r == Err::<Self, PageError>(PageError::ZeroPageSize),
            page_size > 0 && record_total == 0 ==> (r matches Ok(p) && p.page_num == 1
                && p.page_size == page_size && p.record_total == 0 && p.page_total == 1
                && p.records@.len() == 0),
            page_size > 0 && record_total > 0 && records@.len() > page_size ==> r == Err::<
                Self,
                PageError,
            >(PageError::ExcessRecords),
            page_size > 0 && record_total > 0 && records@.len() <= page_size ==> {
                let total = ceil_div(record_total as int, page_size as int);
                &&& 1 <= page_num <= total ==> (r matches Ok(p) && p.page_num == page_num
                    && p.page_size == page_size && p.record_total == record_total
                    && p.page_total == total && p.records@ == records@)
                &&& !(1 <= page_num <= total) ==> (r matches Err(
                    PageError::PageOutOfRange { page_num: n, page_total: t },
                ) && n == page_num && t == total)
            },
            r is Ok <==> page_accepts(page_num, page_size, record_total, records@.len()),
            r matches Ok(p) ==> p.wf(),
    {
        if page_size == 0 {
            return Err(PageError::ZeroPageSize);
        }
        if record_total == 0 {
            return Ok(Page { page_num: 1, page_size, record_total, page_total: 1, records: Vec::new() });
        }
        if page_size < records.len() as u64 {
            return Err(PageError::ExcessRecords);
        }
        let quotient = record_total / page_size;
        let page_total = if record_total % page_size != 0 {
            assert(quotient < u64::MAX) by (nonlinear_arith)
                requires
                    page_size > 0,
                    record_total % page_size != 0,
                    quotient == record_total / page_size,
                    record_total <= u64::MAX,
            {
                if page_size == 1 {
                    assert(record_total % page_size == 0);
                } else {
                    assert(quotient <= record_total / 2);
                }
            }
            quotient + 1
        } else {
            quotient
        };
        assert(page_total == ceil_div(record_total as int, page_size as int)) by (nonlinear_arith)
            requires
                page_size > 0,
                quotient == record_total / page_size,
                page_total == quotient + if record_total % page_size != 0 {
                    1int
                } else {
                    0int
                },
        {
        }
        if page_num < 1 || page_num > page_total {
            return Err(PageError::PageOutOfRange { page_num, page_total });
        }
        Ok(Page { page_num, page_size, record_total, page_total, records })
    }

    pub fn has_prev(&self) -> (r: bool)
        ensures
            r == (self.page_num > 1),
    {
        self.page_num > 1
    }

    pub fn has_next(&self) -> (r: bool)
        ensures
            r == (self.page_num < self.page_total),
    {
        self.page_num < self.page_total
    }

    pub fn first_page(&self) -> (r: u64)
        ensures
            r == 1,
    {
        1
    }

    pub fn last_page(&self) -> (r: u64)
        ensures
            r == self.page_total,
    {
        self.page_total
    }

    pub fn is_active(&self, page: &u64) -> (r: bool)
        ensures
            r == (self.page_num == *page),
    {
        self.page_num == *page
    }
}

} // verus!
