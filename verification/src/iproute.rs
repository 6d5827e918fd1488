//! Route requests: a previously fetched or caller-constructed route
//! descriptor is passed through unmodified; the request composition only
//! selects the operation and the header flags from the action.

use vstd::prelude::*;

use crate::netlink::NetlinkHeader;
use crate::netlink::NetlinkRequest;
use crate::netlink::RtnlRequest;
use crate::netlink::NLM_F_ACK;
use crate::netlink::NLM_F_CREATE;
use crate::netlink::NLM_F_EXCL;
use crate::netlink::NLM_F_REQUEST;

verus! {

/// The kernel's routing table id that holds the local and broadcast routes;
/// callers re-adding dumped routes skip entries of this table.
pub const RT_TABLE_LOCAL: u8 = 255;

/// A route descriptor as this library reads it: only the routing table id is
/// interpreted (for the local-table filter); everything else is carried by
/// the surrounding process unchanged.
#[derive(Debug, PartialEq, Eq, Clone, Copy, Structural)]
pub struct RouteMsg {
    pub table: u8,
}

impl RouteMsg {
    /// Whether a dumped route belongs in a re-add: entries of the kernel's
    /// local table are skipped.
    pub fn should_readd(&self) -> (r: bool)
        ensures
            r == (self.table != RT_TABLE_LOCAL),
    {
        self.table != RT_TABLE_LOCAL
    }
}

/// A route request: the action and the route descriptor it applies to.
#[derive(Debug, PartialEq, Eq, Clone, Copy, Structural)]
pub struct IPRoute {
    pub action: Action,
    pub msg: RouteMsg,
}

/// The action of a route request.
#[derive(Debug, PartialEq, Eq, Clone, Copy, Structural)]
pub enum Action {
    Add,
    Del,
}

/// The header flags selected by a route action: `Add` carries the
/// exclusive-create pair on top of the request/acknowledge pair, so adding
/// an existing route fails instead of overwriting it; `Del` carries only the
/// request/acknowledge pair.
pub open spec fn route_action_flags(a: Action) -> u16 {
    if a is Add {
        NLM_F_REQUEST | NLM_F_ACK | NLM_F_EXCL | NLM_F_CREATE
    } else {
        NLM_F_REQUEST | NLM_F_ACK
    }
}

impl IPRoute {
    /// Composes the netlink request of this route operation: the descriptor
    /// wrapped in the operation selected by the action, under the action's
    /// header flags.
    pub fn build_request(&self) -> (r: NetlinkRequest)
        ensures
            r.header.flags == route_action_flags(self.action),
            self.action is Add ==> r.payload == RtnlRequest::NewRoute(self.msg),
            self.action is Del ==> r.payload == RtnlRequest::DelRoute(self.msg),
    {
        let payload = match self.action {
            Action::Del => RtnlRequest::DelRoute(self.msg),
            Action::Add => RtnlRequest::NewRoute(self.msg),
        };
        let flags = if matches!(self.action, Action::Add) {
            NLM_F_REQUEST | NLM_F_ACK | NLM_F_EXCL | NLM_F_CREATE
        } else {
            NLM_F_REQUEST | NLM_F_ACK
        };
        NetlinkRequest { header: NetlinkHeader { flags }, payload }
    }
}

} // verus!
