//! The veth link kind: a pair of connected virtual interfaces. Creating one
//! names the requesting side and nests a complete peer message for the other
//! side; peer options attach to the peer's own attribute block, not to the
//! requesting link.

use vstd::prelude::*;

use crate::iplink::apply_opts_header;
use crate::iplink::default_link_header;
use crate::iplink::first_err_index;
use crate::iplink::is_name_nla;
use crate::iplink::name;
use crate::iplink::ok_opts;
use crate::iplink::opt_nlas;
use crate::iplink::opt_resolves;
use crate::iplink::options;
use crate::iplink::Info;
use crate::iplink::InfoData;
use crate::iplink::InfoKind;
use crate::iplink::LinkMessage;
use crate::iplink::Nla;
use crate::iplink::Opt;
use crate::iplink::ResolvedOpt;
use crate::iplink::VethInfo;
use crate::netlink::IpError;

verus! {

/// A veth pair's creation data: the peer interface's name and the options
/// applied to the peer's own message.
#[derive(Debug, PartialEq, Eq, Clone)]
pub struct Veth {
    pub peer_name: String,
    pub options: Vec<Opt>,
}

/// Holds when `pm` is a complete peer message: the peer name attribute
/// first, then the attributes of the resolved peer options in order, with
/// the header carrying exactly their flag mutations.
pub open spec fn is_peer_message(
    pm: LinkMessage,
    peer_name: Seq<char>,
    peer_opts: Seq<ResolvedOpt>,
) -> bool {
    &&& pm.header == apply_opts_header(default_link_header(), peer_opts)
    &&& pm.nlas@.len() == 1 + opt_nlas(peer_opts).len()
    &&& is_name_nla(pm.nlas@[0], peer_name)
    &&& pm.nlas@.subrange(1, pm.nlas@.len() as int) == opt_nlas(peer_opts)
}

/// Holds when `n` is the nested info attribute of a veth: the veth kind
/// marker followed by the peer message wrapped as peer info data.
pub open spec fn is_veth_info_nla(
    n: Nla,
    peer_name: Seq<char>,
    peer_opts: Seq<ResolvedOpt>,
) -> bool {
    n matches Nla::Info(infos) && infos@.len() == 2 && infos@[0] == Info::Kind(InfoKind::Veth) && (
    infos@[1] matches Info::Data(InfoData::Veth(VethInfo::Peer(pm))) && is_peer_message(
        pm,
        peer_name,
        peer_opts,
    ))
}

impl Veth {
    /// Appends the veth kind attribute and nested peer info data: a separate
    /// peer message is built carrying the peer name and the resolved peer
    /// options. A peer resolution error aborts the encoding before anything
    /// is appended to the outer message.
    pub fn link_type(
        &self,
        message: &mut LinkMessage,
        peer_resolutions: &Vec<Result<ResolvedOpt, IpError>>,
    ) -> (r: Result<(), IpError>)
        requires
            peer_resolutions@.len() == self.options@.len(),
            forall|j: int|
                0 <= j < self.options@.len() && peer_resolutions@[j] is Ok ==> opt_resolves(
                    self.options@[j],
                    peer_resolutions@[j]->Ok_0,
                ),
        ensures
            match r {
                Ok(()) => {
                    &&& first_err_index(peer_resolutions@) is None
                    &&& final(message).header == old(message).header
                    &&& final(message).nlas@.len() == old(message).nlas@.len() + 1
                    &&& final(message).nlas@.drop_last() == old(message).nlas@
                    &&& is_veth_info_nla(
                        final(message).nlas@.last(),
                        self.peer_name@,
                        ok_opts(peer_resolutions@),
                    )
                },
                Err(e) => (first_err_index(peer_resolutions@) matches Some(i)
                    && e == peer_resolutions@[i]->Err_0) && *final(message) == *old(message),
            },
    {
        let mut peer_message = LinkMessage::default();
        name(self.peer_name.as_str(), &mut peer_message);
        match options(&self.options, peer_resolutions, &mut peer_message) {
            Ok(()) => (),
            Err(e) => {
                return Err(e);
            },
        }
        proof {
            let peer_opts = ok_opts(peer_resolutions@);
            assert(peer_message.nlas@[0] is IfName);
            assert(peer_message.nlas@.subrange(1, peer_message.nlas@.len() as int) =~= opt_nlas(
                peer_opts,
            ));
        }
        let mut link_info_nlas: Vec<Info> = Vec::new();
        link_info_nlas.push(Info::Kind(InfoKind::Veth));
        link_info_nlas.push(Info::Data(InfoData::Veth(VethInfo::Peer(peer_message))));
        message.nlas.push(Nla::Info(link_info_nlas));
        proof {
            assert(message.nlas@.drop_last() =~= old(message).nlas@);
        }
        Ok(())
    }
}

} // verus!
