//! Link requests: the link message model, the option applicator, and the
//! composition of a complete netlink request from an action, a target name,
//! options and an optional link kind.
//!
//! Options that need a synchronous resolution step (a link lookup for
//! `Master`, an open of a namespace reference for `NetNS`) are applied in two
//! phases: the surrounding process resolves each option to a plain value or
//! an error, and the verified applicator encodes the resolved values and
//! aborts the build at the first resolution error, so that no partially
//! resolved request is ever handed to the transport.

use vstd::prelude::*;

use crate::bridge::Bridge;
use crate::bridge::InfoBridge;
use crate::netlink::IpError;
use crate::netlink::NetlinkHeader;
use crate::netlink::NetlinkRequest;
use crate::netlink::RtnlRequest;
use crate::netlink::NLM_F_ACK;
use crate::netlink::NLM_F_CREATE;
use crate::netlink::NLM_F_EXCL;
use crate::netlink::NLM_F_REQUEST;
use crate::veth::Veth;

verus! {

/// The up bit of a link's `flags` and `change_mask` words.
pub const IFF_UP: u32 = 0x0001;

/// The header of a link message: the interface index and the flag words.
/// Netlink's mask/value convention: a request asserts in `change_mask` which
/// flag bits it means to change, and carries their new values in `flags`.
#[derive(Debug, PartialEq, Eq, Clone, Copy)]
pub struct LinkHeader {
    pub index: u32,
    pub flags: u32,
    pub change_mask: u32,
}

/// The link kind named by a kind attribute.
#[derive(Debug, PartialEq, Eq, Clone, Copy)]
pub enum InfoKind {
    Veth,
    Bridge,
}

/// Kind-specific info data: a veth's nested peer message, or a bridge's
/// info attributes passed through verbatim.
#[derive(Debug)]
pub enum InfoData {
    Veth(VethInfo),
    Bridge(Vec<InfoBridge>),
}

/// The veth info block: the peer side of the pair as a nested link message.
#[derive(Debug)]
pub enum VethInfo {
    Peer(LinkMessage),
}

/// One element of a kind info block.
#[derive(Debug)]
pub enum Info {
    Kind(InfoKind),
    Data(InfoData),
}

/// One typed attribute of a link message.
#[derive(Debug)]
pub enum Nla {
    /// The interface name.
    IfName(String),
    /// The index of the master interface to enslave the link to.
    Master(u32),
    /// An open file descriptor of a network namespace reference.
    NetNsFd(i32),
    /// The nested kind info block.
    Info(Vec<Info>),
}

/// A link message: a header and an ordered list of typed attributes.
/// Attributes are appended, never removed.
#[derive(Debug)]
pub struct LinkMessage {
    pub header: LinkHeader,
    pub nlas: Vec<Nla>,
}

/// The header of a fresh link message: index zero and no flag bits.
pub open spec fn default_link_header() -> LinkHeader {
    LinkHeader { index: 0, flags: 0, change_mask: 0 }
}

impl Default for LinkMessage {
    /// A fresh link message: default header and no attributes.
    fn default() -> (r: LinkMessage)
        ensures
            r.header == default_link_header(),
            r.nlas@ == Seq::<Nla>::empty(),
    {
        LinkMessage { header: LinkHeader { index: 0, flags: 0, change_mask: 0 }, nlas: Vec::new() }
    }
}

/// Holds when `n` is an interface-name attribute carrying exactly `name`.
pub open spec fn is_name_nla(n: Nla, name: Seq<char>) -> bool {
    n matches Nla::IfName(s) && s@ == name
}

/// Appends the interface-name attribute to a link message.
pub fn name(name: &str, message: &mut LinkMessage)
    ensures
        final(message).header == old(message).header,
        final(message).nlas@.len() == old(message).nlas@.len() + 1,
        final(message).nlas@.drop_last() == old(message).nlas@,
        is_name_nla(final(message).nlas@.last(), name@),
{
    message.nlas.push(Nla::IfName(name.to_owned()));
    proof {
        assert(message.nlas@.drop_last() =~= old(message).nlas@);
    }
}

/// A link request: an action, the target interface name, mutation options in
/// application order, and an optional link kind for creation.
#[derive(Debug, PartialEq, Eq, Clone)]
pub struct IPLink {
    pub action: Action,
    pub name: String,
    pub options: Vec<Opt>,
    pub link_type: Option<LinkTypeEnum>,
}

/// The action of a link request: create the link, delete it, or modify an
/// existing one.
#[derive(Debug, PartialEq, Eq, Clone, Copy, Structural)]
pub enum Action {
    Add,
    Delete,
    Modify,
}

/// The header flags selected by an action: `Add` must fail if the object
/// already exists, so it carries the exclusive-create pair on top of the
/// request/acknowledge pair; `Delete` and `Modify` carry only the latter.
pub open spec fn action_flags(a: Action) -> u16 {
    if a is Add {
        NLM_F_REQUEST | NLM_F_ACK | NLM_F_EXCL | NLM_F_CREATE
    } else {
        NLM_F_REQUEST | NLM_F_ACK
    }
}

impl Action {
    /// Writes the action's header flags into a request header.
    pub fn action(&self, header: &mut NetlinkHeader)
        ensures
            final(header).flags == action_flags(*self),
    {
        match self {
            Action::Add => {
                header.flags = NLM_F_REQUEST | NLM_F_ACK | NLM_F_EXCL | NLM_F_CREATE;
            },
            _ => {
                header.flags = NLM_F_REQUEST | NLM_F_ACK;
            },
        }
    }
}

/// A link-mutation directive, in the form a caller writes it: `Master` and
/// `NetNS` name their target and need a synchronous resolution step before
/// they can be encoded.
#[derive(Debug, PartialEq, Eq, Clone)]
pub enum Opt {
    Up,
    Down,
    Master(String),
    NetNS(String),
}

/// An option after its resolution step: `Master` carries the looked-up
/// interface index, `NetNS` the opened descriptor of the namespace
/// reference.
#[derive(Debug, PartialEq, Eq, Clone, Copy)]
pub enum ResolvedOpt {
    Up,
    Down,
    Master(u32),
    NetNS(i32),
}

/// Holds when `ro` is the resolved form of `o`.
pub open spec fn opt_resolves(o: Opt, ro: ResolvedOpt) -> bool {
    match o {
        Opt::Up => ro is Up,
        Opt::Down => ro is Down,
        Opt::Master(_) => ro is Master,
        Opt::NetNS(_) => ro is NetNS,
    }
}

/// What one resolved option does to the message header: `Up` sets the up bit
/// in both words; `Down` asserts the up bit in the change mask and clears it
/// in the flags; the attribute options leave the header alone.
pub open spec fn apply_opt_header(h: LinkHeader, ro: ResolvedOpt) -> LinkHeader {
    match ro {
        ResolvedOpt::Up => LinkHeader {
            index: h.index,
            flags: h.flags | IFF_UP,
            change_mask: h.change_mask | IFF_UP,
        },
        ResolvedOpt::Down => LinkHeader {
            index: h.index,
            flags: h.flags & !IFF_UP,
            change_mask: h.change_mask | IFF_UP,
        },
        ResolvedOpt::Master(_) => h,
        ResolvedOpt::NetNS(_) => h,
    }
}

/// The header after a sequence of resolved options, applied left to right.
pub open spec fn apply_opts_header(h: LinkHeader, ros: Seq<ResolvedOpt>) -> LinkHeader
    decreases ros.len(),
{
    if ros.len() == 0 {
        h
    } else {
        apply_opt_header(apply_opts_header(h, ros.drop_last()), ros.last())
    }
}

/// The attributes one resolved option appends: the looked-up master index,
/// the namespace descriptor, or nothing for the flag options.
pub open spec fn opt_nla_of(ro: ResolvedOpt) -> Seq<Nla> {
    match ro {
        ResolvedOpt::Up => Seq::empty(),
        ResolvedOpt::Down => Seq::empty(),
        ResolvedOpt::Master(index) => seq![Nla::Master(index)],
        ResolvedOpt::NetNS(fd) => seq![Nla::NetNsFd(fd)],
    }
}

/// The attributes a sequence of resolved options appends, in order.
pub open spec fn opt_nlas(ros: Seq<ResolvedOpt>) -> Seq<Nla>
    decreases ros.len(),
{
    if ros.len() == 0 {
        Seq::empty()
    } else {
        opt_nlas(ros.drop_last()) + opt_nla_of(ros.last())
    }
}

impl ResolvedOpt {
    /// Encodes one resolved option into the message: flag options mutate the
    /// header words, attribute options append their attribute.
    pub fn apply(&self, message: &mut LinkMessage)
        ensures
            final(message).header == apply_opt_header(old(message).header, *self),
            final(message).nlas@ == old(message).nlas@ + opt_nla_of(*self),
    {
        match self {
            ResolvedOpt::Up => {
                message.header.change_mask = message.header.change_mask | IFF_UP;
                message.header.flags = message.header.flags | IFF_UP;
            },
            ResolvedOpt::Down => {
                message.header.change_mask = message.header.change_mask | IFF_UP;
                message.header.flags = message.header.flags & !IFF_UP;
            },
            ResolvedOpt::Master(index) => {
                message.nlas.push(Nla::Master(*index));
            },
            ResolvedOpt::NetNS(fd) => {
                message.nlas.push(Nla::NetNsFd(*fd));
            },
        }
        proof {
            assert(message.nlas@ =~= old(message).nlas@ + opt_nla_of(*self));
        }
    }
}

impl Opt {
    /// Applies this option to the message, given the outcome of its
    /// resolution step: on a resolved value the message is mutated, on a
    /// resolution error that error is handed back and the message is left
    /// alone.
    pub fn opt(&self, resolution: &Result<ResolvedOpt, IpError>, message: &mut LinkMessage) -> (r:
        Result<(), IpError>)
        requires
            resolution matches Ok(ro) ==> opt_resolves(*self, *ro),
        ensures
            match resolution {
                Ok(ro) => r == Ok::<(), IpError>(()) && final(message).header == apply_opt_header(
                    old(message).header,
                    *ro,
                ) && final(message).nlas@ == old(message).nlas@ + opt_nla_of(*ro),
                Err(e) => r == Err::<(), IpError>(*e) && *final(message) == *old(message),
            },
    {
        match resolution {
            Ok(ro) => {
                ro.apply(message);
                Ok(())
            },
            Err(e) => Err(e.duplicate()),
        }
    }
}

/// The index of the first resolution error, if any.
pub open spec fn first_err_index(rs: Seq<Result<ResolvedOpt, IpError>>) -> Option<int>
    decreases rs.len(),
{
    if rs.len() == 0 {
        None
    } else if rs[0] is Err {
        Some(0int)
    } else {
        match first_err_index(rs.drop_first()) {
            None => None,
            Some(i) => Some(i + 1),
        }
    }
}

/// The resolved values of a sequence of resolution outcomes; meaningful on a
/// prefix in which every outcome succeeded.
pub open spec fn ok_opts(rs: Seq<Result<ResolvedOpt, IpError>>) -> Seq<ResolvedOpt> {
    rs.map_values(|x: Result<ResolvedOpt, IpError>| x->Ok_0)
}

pub proof fn lemma_first_err_index_props(rs: Seq<Result<ResolvedOpt, IpError>>)
    ensures
        match first_err_index(rs) {
            None => forall|i: int| 0 <= i < rs.len() ==> !(rs[i] is Err),
            Some(i) => 0 <= i < rs.len() && rs[i] is Err && forall|j: int|
                0 <= j < i ==> !(rs[j] is Err),
        },
    decreases rs.len(),
{
    if rs.len() > 0 && !(rs[0] is Err) {
        lemma_first_err_index_props(rs.drop_first());
        assert(forall|j: int| 1 <= j < rs.len() ==> rs[j] == rs.drop_first()[j - 1]);
    }
}

/// Applies options in caller-given order, each with the outcome of its
/// resolution step. The first resolution error aborts the application and is
/// handed back; the message then carries exactly the mutations of the
/// options before it.
pub fn options(
    opts: &Vec<Opt>,
    resolutions: &Vec<Result<ResolvedOpt, IpError>>,
    message: &mut LinkMessage,
) -> (r: Result<(), IpError>)
    requires
        resolutions@.len() == opts@.len(),
        forall|j: int|
            0 <= j < opts@.len() && resolutions@[j] is Ok ==> opt_resolves(
                opts@[j],
                resolutions@[j]->Ok_0,
            ),
    ensures
        match r {
            Ok(()) => {
                &&& first_err_index(resolutions@) is None
                &&& final(message).header == apply_opts_header(
                    old(message).header,
                    ok_opts(resolutions@),
                )
                &&& final(message).nlas@ == old(message).nlas@ + opt_nlas(ok_opts(resolutions@))
            },
            Err(e) => {
                &&& first_err_index(resolutions@) matches Some(i) && e == resolutions@[i]->Err_0
                    && final(message).header == apply_opts_header(
                    old(message).header,
                    ok_opts(resolutions@.take(i)),
                ) && final(message).nlas@ == old(message).nlas@ + opt_nlas(
                    ok_opts(resolutions@.take(i)),
                )
            },
        },
{
    let mut k: usize = 0;
    while k < opts.len()
        invariant
            0 <= k <= opts@.len(),
            resolutions@.len() == opts@.len(),
            forall|j: int|
                0 <= j < opts@.len() && resolutions@[j] is Ok ==> opt_resolves(
                    opts@[j],
                    resolutions@[j]->Ok_0,
                ),
            forall|j: int| 0 <= j < k ==> !(resolutions@[j] is Err),
            message.header == apply_opts_header(
                old(message).header,
                ok_opts(resolutions@.take(k as int)),
            ),
            message.nlas@ == old(message).nlas@ + opt_nlas(ok_opts(resolutions@.take(k as int))),
        decreases opts@.len() - k,
    {
        let r = opts[k].opt(&resolutions[k], message);
        proof {
            lemma_first_err_index_props(resolutions@);
            let taken = ok_opts(resolutions@.take(k as int));
            let taken1 = ok_opts(resolutions@.take(k + 1int));
            assert(taken1 =~= taken.push(resolutions@[k as int]->Ok_0));
            assert(taken1.drop_last() =~= taken);
        }
        match r {
            Ok(()) => {
                proof {
                    if resolutions@[k as int] is Err {
                        assert(false);
                    }
                }
            },
            Err(e) => {
                proof {
                    let i = first_err_index(resolutions@)->Some_0;
                    assert(resolutions@[k as int] is Err);
                    assert(!(i < k as int));
                    assert(!((k as int) < i));
                }
                return Err(e);
            },
        }
        k += 1;
    }
    proof {
        lemma_first_err_index_props(resolutions@);
        assert(resolutions@.take(opts@.len() as int) =~= resolutions@);
    }
    Ok(())
}

proof fn lemma_up_bit_facts(x: u32)
    ensures
        (x & !IFF_UP) & IFF_UP == 0,
        (x | IFF_UP) & IFF_UP != 0,
{
    assert((x & !0x1u32) & 0x1u32 == 0) by (bit_vector);
    assert((x | 0x1u32) & 0x1u32 != 0) by (bit_vector);
}

/// Once `Down` has been applied and no later option is `Up`, the header has
/// the up bit cleared in `flags` and asserted in `change_mask`, whatever
/// other options surround the pair — in particular after applying `Up` and
/// then `Down` to the same message, in any position.
pub proof fn lemma_down_after_up_clears_up_bit(h: LinkHeader, ros: Seq<ResolvedOpt>, i: int)
    requires
        0 <= i < ros.len(),
        ros[i] is Down,
        forall|j: int| i < j < ros.len() ==> !(ros[j] is Up),
    ensures
        apply_opts_header(h, ros).flags & IFF_UP == 0,
        apply_opts_header(h, ros).change_mask & IFF_UP != 0,
    decreases ros.len(),
{
    let prev = apply_opts_header(h, ros.drop_last());
    lemma_up_bit_facts(prev.flags);
    lemma_up_bit_facts(prev.change_mask);
    if i < ros.len() - 1 {
        lemma_down_after_up_clears_up_bit(h, ros.drop_last(), i);
        lemma_up_bit_facts(prev.change_mask | IFF_UP);
        assert(!(ros.last() is Up));
    }
}

/// The supported link kinds, each able to encode its kind attribute and
/// kind-specific nested data into a link-creation message.
#[derive(Debug, PartialEq, Eq, Clone)]
pub enum LinkTypeEnum {
    Veth(Veth),
    Bridge(Bridge),
}

/// Holds when `n` is the nested info attribute of a link kind: the kind
/// marker followed by the kind-specific data built from `lt`; for a veth,
/// `peer_opts` are the resolved options of the peer side.
pub open spec fn is_link_type_nla(n: Nla, lt: LinkTypeEnum, peer_opts: Seq<ResolvedOpt>) -> bool {
    match lt {
        LinkTypeEnum::Veth(v) => crate::veth::is_veth_info_nla(n, v.peer_name@, peer_opts),
        LinkTypeEnum::Bridge(b) => crate::bridge::is_bridge_info_nla(n, b.info@),
    }
}

impl LinkTypeEnum {
    /// Encodes this link kind into the message. A veth builds its peer
    /// message from the peer name and the resolved peer options and can fail
    /// on a peer resolution error; a bridge appends its info attributes
    /// verbatim and cannot fail.
    pub fn link_type(
        &self,
        message: &mut LinkMessage,
        peer_resolutions: &Vec<Result<ResolvedOpt, IpError>>,
    ) -> (r: Result<(), IpError>)
        requires
            *self matches LinkTypeEnum::Veth(v) ==> peer_resolutions@.len() == v.options@.len()
                && forall|j: int|
                0 <= j < v.options@.len() && peer_resolutions@[j] is Ok ==> opt_resolves(
                    v.options@[j],
                    peer_resolutions@[j]->Ok_0,
                ),
        ensures
            match r {
                Ok(()) => {
                    &&& *self is Veth ==> first_err_index(peer_resolutions@) is None
                    &&& final(message).header == old(message).header
                    &&& final(message).nlas@.len() == old(message).nlas@.len() + 1
                    &&& final(message).nlas@.drop_last() == old(message).nlas@
                    &&& is_link_type_nla(
                        final(message).nlas@.last(),
                        *self,
                        ok_opts(peer_resolutions@),
                    )
                },
                Err(e) => *self is Veth && (first_err_index(peer_resolutions@) matches Some(i)
                    && e == peer_resolutions@[i]->Err_0) && *final(message) == *old(message),
            },
    {
        match self {
            LinkTypeEnum::Veth(v) => v.link_type(message, peer_resolutions),
            LinkTypeEnum::Bridge(b) => b.link_type(message),
        }
    }
}

/// Holds when `m` is the complete link message of a request: the name
/// attribute first, then the attributes of the resolved options in order,
/// then the link-kind info block if a kind was given; the header carries
/// exactly the flag mutations of the options.
pub open spec fn built_message(
    m: LinkMessage,
    name: Seq<char>,
    ros: Seq<ResolvedOpt>,
    lt: Option<LinkTypeEnum>,
    peer_opts: Seq<ResolvedOpt>,
) -> bool {
    let kind_len: int = if lt is Some {
        1
    } else {
        0
    };
    &&& m.header == apply_opts_header(default_link_header(), ros)
    &&& m.nlas@.len() == 1 + opt_nlas(ros).len() + kind_len
    &&& is_name_nla(m.nlas@[0], name)
    &&& m.nlas@.subrange(1, 1 + opt_nlas(ros).len() as int) == opt_nlas(ros)
    &&& (lt matches Some(k) ==> is_link_type_nla(m.nlas@.last(), k, peer_opts))
}

impl IPLink {
    /// Composes the complete netlink request of this link operation from the
    /// outcomes of the resolution steps: the identity attribute, the resolved
    /// options, the link kind, the operation selected by the action, and the
    /// action's header flags. The first resolution error (main options first,
    /// then a veth's peer options) aborts the build, so no partially resolved
    /// request reaches the transport.
    pub fn build_request(
        &self,
        resolutions: &Vec<Result<ResolvedOpt, IpError>>,
        peer_resolutions: &Vec<Result<ResolvedOpt, IpError>>,
    ) -> (r: Result<NetlinkRequest, IpError>)
        requires
            resolutions@.len() == self.options@.len(),
            forall|j: int|
                0 <= j < self.options@.len() && resolutions@[j] is Ok ==> opt_resolves(
                    self.options@[j],
                    resolutions@[j]->Ok_0,
                ),
            self.link_type matches Some(LinkTypeEnum::Veth(v)) ==> peer_resolutions@.len()
                == v.options@.len() && forall|j: int|
                0 <= j < v.options@.len() && peer_resolutions@[j] is Ok ==> opt_resolves(
                    v.options@[j],
                    peer_resolutions@[j]->Ok_0,
                ),
        ensures
            match r {
                Ok(req) => {
                    &&& first_err_index(resolutions@) is None
                    &&& req.header.flags == action_flags(self.action)
                    &&& match req.payload {
                        RtnlRequest::NewLink(m) => !(self.action is Delete) && built_message(
                            m,
                            self.name@,
                            ok_opts(resolutions@),
                            self.link_type,
                            ok_opts(peer_resolutions@),
                        ),
                        RtnlRequest::DelLink(m) => self.action is Delete && built_message(
                            m,
                            self.name@,
                            ok_opts(resolutions@),
                            self.link_type,
                            ok_opts(peer_resolutions@),
                        ),
                        _ => false,
                    }
                },
                Err(e) => match first_err_index(resolutions@) {
                    Some(i) => e == resolutions@[i]->Err_0,
                    None => self.link_type matches Some(LinkTypeEnum::Veth(_)) && (first_err_index(
                        peer_resolutions@,
                    ) matches Some(i) && e == peer_resolutions@[i]->Err_0),
                },
            },
    {
        let mut message = LinkMessage::default();
        name(self.name.as_str(), &mut message);
        let ghost after_name = message;
        proof {
            assert(after_name.nlas@.len() == 1);
            assert(is_name_nla(after_name.nlas@[0], self.name@));
        }
        match options(&self.options, resolutions, &mut message) {
            Ok(()) => (),
            Err(e) => {
                return Err(e);
            },
        }
        let ghost ros = ok_opts(resolutions@);
        let ghost after_opts = message;
        proof {
            assert(after_opts.nlas@ == after_name.nlas@ + opt_nlas(ros));
            assert(after_opts.nlas@[0] == after_name.nlas@[0]);
            assert(after_opts.nlas@.subrange(1, 1 + opt_nlas(ros).len() as int) =~= opt_nlas(ros));
        }
        match &self.link_type {
            None => (),
            Some(link_type) => {
                match link_type.link_type(&mut message, peer_resolutions) {
                    Ok(()) => (),
                    Err(e) => {
                        return Err(e);
                    },
                }
                proof {
                    assert(message.nlas@.drop_last() == after_opts.nlas@);
                    assert(message.nlas@.len() == after_opts.nlas@.len() + 1);
                    assert(message.nlas@[0] == after_opts.nlas@[0]);
                    assert(message.nlas@.subrange(1, 1 + opt_nlas(ros).len() as int) =~= after_opts.nlas@.subrange(
                        1,
                        1 + opt_nlas(ros).len() as int,
                    ));
                }
            },
        }
        let payload = match self.action {
            Action::Delete => RtnlRequest::DelLink(message),
            _ => RtnlRequest::NewLink(message),
        };
        let mut req = NetlinkRequest { header: NetlinkHeader { flags: 0 }, payload };
        self.action.action(&mut req.header);
        Ok(req)
    }
}

} // verus!
