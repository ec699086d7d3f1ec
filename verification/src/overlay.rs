//! The pages through which the controller and the guest talk.

use crate::access::OverlayRequest;
use crate::access::VtlProtectAccess;
use crate::registers::HvError;
use vstd::prelude::*;

verus! {

pub const HV_PAGE_SIZE_USIZE: usize = 4096;

/// `s` with `data` written over it from `offset` on.
pub open spec fn overwritten(s: Seq<u8>, offset: int, data: Seq<u8>) -> Seq<u8> {
    Seq::new(
        s.len(),
        |i: int|
            if offset <= i < offset + data.len() {
                data[i - offset]
            } else {
                s[i]
            },
    )
}

/// What a page holds, and the guest page that it lies over.
#[verifier::ext_equal]
pub struct PageModel {
    pub contents: Seq<u8>,
    pub gpn: Option<u64>,
}

impl PageModel {
    /// A zeroed page that lies over no guest page.
    pub open spec fn fresh() -> Self {
        PageModel { contents: Seq::new(HV_PAGE_SIZE_USIZE as nat, |i: int| 0u8), gpn: None }
    }

    /// The page with `data` written at `offset`.
    pub open spec fn written(self, offset: int, data: Seq<u8>) -> Self {
        PageModel { contents: overwritten(self.contents, offset, data), gpn: self.gpn }
    }

    /// The page after a move to `gpn` was answered with `reply`: a page that
    /// may not move stays where it is, and a page that moves keeps its contents.
    pub open spec fn remapped(self, gpn: u64, reply: Result<(), HvError>) -> Self {
        if reply is Ok {
            PageModel { contents: self.contents, gpn: Some(gpn) }
        } else {
            self
        }
    }

    /// The page taken from the guest's sight.
    pub open spec fn unmapped(self) -> Self {
        PageModel { contents: self.contents, gpn: None }
    }

    /// The requests that give back the guest page under this one.
    pub open spec fn unlock_requests(self) -> Seq<OverlayRequest> {
        match self.gpn {
            Some(gpn) => seq![OverlayRequest::Unlock { gpn }],
            None => seq![],
        }
    }

    /// The requests that a move to `gpn` makes when the first is answered with
    /// `reply`.
    pub open spec fn remap_requests(self, gpn: u64, reply: Result<(), HvError>) -> Seq<
        OverlayRequest,
    > {
        seq![OverlayRequest::Lock { gpn, reply }] + if reply is Ok {
            self.unlock_requests()
        } else {
            seq![]
        }
    }
}

/// A page of the controller that can be laid over a guest page.
///
/// The guest's accesses to an overlaid page reach the contents through
/// [`Self::read`] and [`Self::write`], like the controller's own.
#[derive(Clone, Copy)]
pub struct OverlayPage {
    pub contents: [u8; HV_PAGE_SIZE_USIZE],
    pub gpn: Option<u64>,
}

impl View for OverlayPage {
    type V = PageModel;

    open spec fn view(&self) -> PageModel {
        PageModel { contents: self.contents@, gpn: self.gpn }
    }
}

impl Default for OverlayPage {
    fn default() -> (page: Self)
        ensures
            page@ == PageModel::fresh(),
    {
        let page = OverlayPage { contents: [0u8; HV_PAGE_SIZE_USIZE], gpn: None };
        assert(page.contents@ =~= PageModel::fresh().contents);
        page
    }
}

impl OverlayPage {
    /// Returns the `len` bytes at `offset`.
    pub fn read(&self, offset: usize, len: usize) -> (data: Vec<u8>)
        requires
            offset + len <= HV_PAGE_SIZE_USIZE,
        ensures
            data@ == self@.contents.subrange(offset as int, offset + len),
    {
        let mut data: Vec<u8> = Vec::new();
        let mut i: usize = 0;
        while i < len
            invariant
                i <= len,
                offset + len <= HV_PAGE_SIZE_USIZE,
                data@ =~= self@.contents.subrange(offset as int, offset + i),
            decreases len - i,
        {
            data.push(self.contents[offset + i]);
            i += 1;
        }
        data
    }

    /// Writes `data` at `offset`.
    pub fn write(&mut self, offset: usize, data: &[u8])
        requires
            offset + data@.len() <= HV_PAGE_SIZE_USIZE,
        ensures
            final(self)@ == old(self)@.written(offset as int, data@),
    {
        let ghost before = self@;
        let mut i: usize = 0;
        while i < data.len()
            invariant
                i <= data@.len(),
                offset + data@.len() <= HV_PAGE_SIZE_USIZE,
                before.contents.len() == HV_PAGE_SIZE_USIZE,
                self@ =~= before.written(offset as int, data@.take(i as int)),
            decreases data@.len() - i,
        {
            self.contents[offset + i] = data[i];
            i += 1;
        }
        assert(data@.take(i as int) =~= data@);
    }

    /// Sets the bits of `mask` in the byte at `offset`, and returns the byte as
    /// it was before.
    pub fn fetch_or(&mut self, offset: usize, mask: u8) -> (before: u8)
        requires
            offset < HV_PAGE_SIZE_USIZE,
        ensures
            before == old(self)@.contents[offset as int],
            final(self)@ == old(self)@.written(offset as int, seq![before | mask]),
    {
        let before: u8 = self.contents[offset];
        self.contents[offset] = before | mask;
        assert(self@ =~= old(self)@.written(offset as int, seq![before | mask]));
        before
    }

    /// Moves the page over the guest page `gpn`.
    pub fn remap<P: VtlProtectAccess + ?Sized>(&mut self, gpn: u64, prot_access: &mut P) -> (reply: Result<
        (),
        HvError,
    >)
        ensures
            final(self)@ == old(self)@.remapped(gpn, reply),
            final(prot_access).overlay_requests() == old(prot_access).overlay_requests() + old(
                self,
            )@.remap_requests(gpn, reply),
    {
        let reply = prot_access.lock_overlay_page(gpn);
        if reply.is_ok() {
            self.unmap(prot_access);
            self.gpn = Some(gpn);
        }
        assert(prot_access.overlay_requests() =~= old(prot_access).overlay_requests() + old(
            self,
        )@.remap_requests(gpn, reply));
        reply
    }

    /// Takes the page from the guest's sight.
    pub fn unmap<P: VtlProtectAccess + ?Sized>(&mut self, prot_access: &mut P)
        ensures
            final(self)@ == old(self)@.unmapped(),
            final(prot_access).overlay_requests() == old(prot_access).overlay_requests() + old(
                self,
            )@.unlock_requests(),
    {
        match self.gpn {
            Some(gpn) => {
                prot_access.unlock_overlay_page(gpn);
                self.gpn = None;
            },
            None => {},
        }
        assert(prot_access.overlay_requests() =~= old(prot_access).overlay_requests() + old(
            self,
        )@.unlock_requests());
    }
}

} // verus!
