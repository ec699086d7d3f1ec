//! Laws of the pages and of the registers that say where they lie.

use crate::access::OverlayRequest;
use crate::overlay::PageModel;
use crate::registers::HvError;
use crate::registers::HvSynicSimpSiefp;
use crate::registers::MsrError;
use crate::sint::page_after_write;
use crate::sint::page_register_after_write;
use crate::sint::page_write_requests;
use crate::sint::page_write_result;
use vstd::prelude::*;

verus! {

/// A write to a page puts each byte in its place and leaves all others, and the
/// place of the page, alone.
pub proof fn law_page_write_is_local(page: PageModel, offset: int, data: Seq<u8>, i: int)
    requires
        0 <= offset,
        offset + data.len() <= page.contents.len(),
        0 <= i < page.contents.len(),
    ensures
        page.written(offset, data).contents.len() == page.contents.len(),
        offset <= i < offset + data.len() ==> page.written(offset, data).contents[i] == data[i
            - offset],
        i < offset || i >= offset + data.len() ==> page.written(offset, data).contents[i]
            == page.contents[i],
        page.written(offset, data).gpn == page.gpn,
{
}

/// A new page is zeroed, and lies over no guest page.
pub proof fn law_fresh_page(i: int)
    requires
        0 <= i < 4096,
    ensures
        PageModel::fresh().contents.len() == 4096,
        PageModel::fresh().contents[i] == 0,
        PageModel::fresh().gpn is None,
{
}

/// The write of a page register never changes what the page holds.
pub proof fn law_page_keeps_its_contents(
    page: PageModel,
    old: HvSynicSimpSiefp,
    new: HvSynicSimpSiefp,
    reply: Result<(), HvError>,
)
    ensures
        page_after_write(page, old, new, reply).contents == page.contents,
{
}

/// A page is asked to move exactly if its register is written enabled, and was
/// disabled or named another guest page. Then the guest page is locked first.
/// If that is granted, the old one is given back, and page and register go by
/// the new value; if not, the write fails, and both stay as they were.
pub proof fn law_page_moves(
    page: PageModel,
    old: HvSynicSimpSiefp,
    new: HvSynicSimpSiefp,
    reply: Result<(), HvError>,
)
    requires
        new.bits & 1 != 0,
        old.bits & 1 == 0 || new.bits >> 12 != old.bits >> 12,
    ensures
        page_write_requests(page, old, new, reply).len() > 0,
        page_write_requests(page, old, new, reply)[0] == (OverlayRequest::Lock {
            gpn: new.bits >> 12,
            reply,
        }),
        reply is Ok ==> {
            &&& page_write_result(old, new, reply) is Ok
            &&& page_register_after_write(old, new, reply) == new
            &&& page_after_write(page, old, new, reply).gpn == Some(new.bits >> 12)
            &&& page.gpn is None ==> page_write_requests(page, old, new, reply).len() == 1
            &&& page.gpn matches Some(gpn) ==> page_write_requests(page, old, new, reply) == seq![
                OverlayRequest::Lock { gpn: new.bits >> 12, reply },
                OverlayRequest::Unlock { gpn },
            ]
        },
        reply is Err ==> {
            &&& page_write_result(old, new, reply) == Err::<(), MsrError>(MsrError::InvalidAccess)
            &&& page_register_after_write(old, new, reply) == old
            &&& page_after_write(page, old, new, reply) == page
            &&& page_write_requests(page, old, new, reply).len() == 1
        },
{
}

/// A page whose register is written disabled is taken from the guest's sight,
/// and the guest page under it is given back.
pub proof fn law_page_is_taken_away(
    page: PageModel,
    old: HvSynicSimpSiefp,
    new: HvSynicSimpSiefp,
    reply: Result<(), HvError>,
)
    requires
        new.bits & 1 == 0,
    ensures
        page_write_result(old, new, reply) is Ok,
        page_register_after_write(old, new, reply) == new,
        page_after_write(page, old, new, reply).gpn is None,
        page.gpn is None ==> page_write_requests(page, old, new, reply).len() == 0,
        page.gpn matches Some(gpn) ==> page_write_requests(page, old, new, reply) == seq![
            OverlayRequest::Unlock { gpn },
        ],
{
}

/// A page whose register is written enabled, and names the guest page that it
/// named before, stays where it is without a request.
pub proof fn law_page_stays(
    page: PageModel,
    old: HvSynicSimpSiefp,
    new: HvSynicSimpSiefp,
    reply: Result<(), HvError>,
)
    requires
        new.bits & 1 != 0,
        old.bits & 1 != 0,
        new.bits >> 12 == old.bits >> 12,
    ensures
        page_write_result(old, new, reply) is Ok,
        page_register_after_write(old, new, reply) == new,
        page_after_write(page, old, new, reply) == page,
        page_write_requests(page, old, new, reply).len() == 0,
{
}

/// What moving a page and taking it away leave and ask for.
pub proof fn law_overlays(page: PageModel, gpn: u64, reply: Result<(), HvError>)
    ensures
        page.remapped(gpn, reply).contents == page.contents,
        page.remapped(gpn, reply).gpn == if reply is Ok {
            Some(gpn)
        } else {
            page.gpn
        },
        page.unmapped().contents == page.contents,
        page.unmapped().gpn is None,
        page.gpn is None ==> page.unlock_requests().len() == 0,
        page.gpn matches Some(under) ==> page.unlock_requests() == seq![
            OverlayRequest::Unlock { gpn: under },
        ],
        reply is Err || page.gpn is None ==> page.remap_requests(gpn, reply) == seq![
            OverlayRequest::Lock { gpn, reply },
        ],
        reply is Ok ==> (page.gpn matches Some(under) ==> page.remap_requests(gpn, reply) == seq![
            OverlayRequest::Lock { gpn, reply },
            OverlayRequest::Unlock { gpn: under },
        ]),
{
}

} // verus!
