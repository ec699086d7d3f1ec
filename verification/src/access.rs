//! What the controller asks of the virtual machine around it: interrupts for
//! the virtual processor, and guest pages to lay its own pages over.

use crate::registers::HvError;
use vstd::prelude::*;

verus! {

/// An interrupt that was asked for.
#[derive(Clone, Copy, Debug, PartialEq, Eq, Structural)]
pub struct InterruptRequest {
    pub vector: u32,
    pub auto_eoi: bool,
}

/// The interrupt controller of the virtual processor.
pub trait RequestInterrupt {
    /// What was asked for so far, in order. An implementation that is verified
    /// says what it is; for any other, it is the history of the calls.
    closed spec fn requests(&self) -> Seq<InterruptRequest> {
        arbitrary()
    }

    /// Asks for an interrupt with the given vector.
    fn request_interrupt(&mut self, vector: u32, auto_eoi: bool)
        ensures
            final(self).requests() == old(self).requests().push(
                InterruptRequest { vector, auto_eoi },
            ),
    ;
}

/// A list of interrupts to raise later.
impl RequestInterrupt for Vec<InterruptRequest> {
    open spec fn requests(&self) -> Seq<InterruptRequest> {
        self@
    }

    fn request_interrupt(&mut self, vector: u32, auto_eoi: bool) {
        self.push(InterruptRequest { vector, auto_eoi });
    }
}

/// A request about a guest page, and the reply to it.
#[derive(Clone, Copy, Debug, PartialEq, Eq)]
pub enum OverlayRequest {
    /// Lay a page of the controller over the guest page `gpn`.
    Lock { gpn: u64, reply: Result<(), HvError> },
    /// Show the guest page `gpn` again.
    Unlock { gpn: u64 },
}

/// The keeper of the guest's pages and of the protections on them.
pub trait VtlProtectAccess {
    /// What was asked so far and how it was answered, in order. An
    /// implementation that is verified says what it is; for any other, it is
    /// the history of the calls.
    closed spec fn overlay_requests(&self) -> Seq<OverlayRequest> {
        arbitrary()
    }

    /// Checks that the guest page `gpn` may be overlaid, and locks it.
    fn lock_overlay_page(&mut self, gpn: u64) -> (reply: Result<(), HvError>)
        ensures
            final(self).overlay_requests() == old(self).overlay_requests().push(
                OverlayRequest::Lock { gpn, reply },
            ),
    ;

    /// Gives the guest page `gpn` back.
    fn unlock_overlay_page(&mut self, gpn: u64)
        ensures
            final(self).overlay_requests() == old(self).overlay_requests().push(
                OverlayRequest::Unlock { gpn },
            ),
    ;
}

/// The pages of a guest without protections: each page that the guest has may
/// be overlaid.
pub struct UnprotectedPages {
    pub page_count: u64,
    pub requests: Vec<OverlayRequest>,
}

impl UnprotectedPages {
    pub fn new(page_count: u64) -> (pages: Self)
        ensures
            pages.page_count == page_count,
            pages.requests@ == Seq::<OverlayRequest>::empty(),
    {
        UnprotectedPages { page_count, requests: Vec::new() }
    }
}

impl VtlProtectAccess for UnprotectedPages {
    open spec fn overlay_requests(&self) -> Seq<OverlayRequest> {
        self.requests@
    }

    fn lock_overlay_page(&mut self, gpn: u64) -> (reply: Result<(), HvError>)
        ensures
            final(self).page_count == old(self).page_count,
            reply == (if gpn < old(self).page_count {
                Ok::<(), HvError>(())
            } else {
                Err(HvError::InvalidParameter)
            }),
    {
        let reply: Result<(), HvError> = if gpn < self.page_count {
            Ok(())
        } else {
            Err(HvError::InvalidParameter)
        };
        self.requests.push(OverlayRequest::Lock { gpn, reply });
        reply
    }

    fn unlock_overlay_page(&mut self, gpn: u64)
        ensures
            final(self).page_count == old(self).page_count,
    {
        self.requests.push(OverlayRequest::Unlock { gpn });
    }
}

} // verus!
