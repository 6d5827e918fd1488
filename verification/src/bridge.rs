//! The bridge link kind: creation carries a caller-supplied list of bridge
//! info attributes verbatim; no bridge-specific validation is performed, and
//! malformed combinations are left to kernel-side rejection.

use vstd::prelude::*;

use crate::iplink::Info;
use crate::iplink::InfoData;
use crate::iplink::InfoKind;
use crate::iplink::LinkMessage;
use crate::iplink::Nla;
use crate::netlink::IpError;

verus! {

/// A bridge info attribute, passed through to the kernel unchanged.
#[derive(Debug, PartialEq, Eq, Clone, Copy)]
pub enum InfoBridge {
    ForwardDelay(u32),
    HelloTime(u32),
    MaxAge(u32),
    AgeingTime(u32),
    StpState(u32),
    Priority(u16),
    VlanProtocol(u16),
    GroupFwdMask(u16),
}

/// A bridge's creation data: its info attributes.
#[derive(Debug, PartialEq, Eq, Clone)]
pub struct Bridge {
    pub info: Vec<InfoBridge>,
}

/// Holds when `n` is the nested info attribute of a bridge: the bridge kind
/// marker followed by exactly the caller's info attributes.
pub open spec fn is_bridge_info_nla(n: Nla, info: Seq<InfoBridge>) -> bool {
    n matches Nla::Info(infos) && infos@.len() == 2 && infos@[0] == Info::Kind(InfoKind::Bridge)
        && (infos@[1] matches Info::Data(InfoData::Bridge(v)) && v@ == info)
}

impl Bridge {
    /// Appends the bridge kind attribute and the caller-supplied info
    /// attributes verbatim. Cannot fail; the result type mirrors the other
    /// link kinds, whose encodings can.
    pub fn link_type(&self, message: &mut LinkMessage) -> (r: Result<(), IpError>)
        ensures
            r == Ok::<(), IpError>(()),
            final(message).header == old(message).header,
            final(message).nlas@.len() == old(message).nlas@.len() + 1,
            final(message).nlas@.drop_last() == old(message).nlas@,
            is_bridge_info_nla(final(message).nlas@.last(), self.info@),
    {
        let mut info_copy: Vec<InfoBridge> = Vec::new();
        let mut k: usize = 0;
        while k < self.info.len()
            invariant
                0 <= k <= self.info@.len(),
                info_copy@ == self.info@.take(k as int),
            decreases self.info@.len() - k,
        {
            info_copy.push(self.info[k]);
            proof {
                assert(info_copy@ =~= self.info@.take(k + 1int));
            }
            k += 1;
        }
        proof {
            assert(info_copy@ =~= self.info@);
        }
        let mut link_info_nlas: Vec<Info> = Vec::new();
        link_info_nlas.push(Info::Kind(InfoKind::Bridge));
        link_info_nlas.push(Info::Data(InfoData::Bridge(info_copy)));
        message.nlas.push(Nla::Info(link_info_nlas));
        proof {
            assert(message.nlas@.drop_last() =~= old(message).nlas@);
        }
        Ok(())
    }
}

} // verus!
