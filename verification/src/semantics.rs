//! The protocol semantics the link requests rely on, over a model of the
//! kernel's link table, together with the laws the request builders
//! guarantee: an exclusive-create add fails on an existing name instead of
//! overwriting it, and an add followed by a delete of the same name leaves
//! the pre-existing table exactly as it was.

use vstd::prelude::*;

use crate::iplink::action_flags;
use crate::iplink::built_message;
use crate::iplink::Action;
use crate::iplink::Info;
use crate::iplink::InfoData;
use crate::iplink::LinkMessage;
use crate::iplink::LinkTypeEnum;
use crate::iplink::Nla;
use crate::iplink::ResolvedOpt;
use crate::iplink::VethInfo;
use crate::netlink::NetlinkRequest;
use crate::netlink::RtnlRequest;
use crate::netlink::NLM_F_CREATE;
use crate::netlink::NLM_F_EXCL;

verus! {

/// The kernel's link table as the semantics sees it: each existing interface
/// name maps to the name of its veth peer, or to `None` for an unpaired
/// interface.
pub type LinkTable = Map<Seq<char>, Option<Seq<char>>>;

/// The first interface-name attribute among `nlas`, if any.
pub open spec fn msg_if_name(nlas: Seq<Nla>) -> Option<Seq<char>>
    decreases nlas.len(),
{
    if nlas.len() == 0 {
        None
    } else if nlas[0] is IfName {
        Some(nlas[0]->IfName_0@)
    } else {
        msg_if_name(nlas.drop_first())
    }
}

/// The veth peer message nested in one info attribute, if any.
pub open spec fn infos_veth_peer(infos: Seq<Info>) -> Option<LinkMessage>
    decreases infos.len(),
{
    if infos.len() == 0 {
        None
    } else if infos[0] matches Info::Data(InfoData::Veth(VethInfo::Peer(_))) {
        match infos[0] {
            Info::Data(InfoData::Veth(VethInfo::Peer(pm))) => Some(pm),
            _ => None,
        }
    } else {
        infos_veth_peer(infos.drop_first())
    }
}

/// The veth peer message nested in `n`, if any.
pub open spec fn nla_veth_peer(n: Nla) -> Option<LinkMessage> {
    match n {
        Nla::Info(infos) => infos_veth_peer(infos@),
        _ => None,
    }
}

/// The first nested veth peer message among `nlas`, if any.
pub open spec fn msg_veth_peer(nlas: Seq<Nla>) -> Option<LinkMessage>
    decreases nlas.len(),
{
    if nlas.len() == 0 {
        None
    } else if nla_veth_peer(nlas[0]) is Some {
        nla_veth_peer(nlas[0])
    } else {
        msg_veth_peer(nlas.drop_first())
    }
}

/// The name of the veth peer a link message asks to create, if any.
pub open spec fn veth_peer_name(m: LinkMessage) -> Option<Seq<char>> {
    match msg_veth_peer(m.nlas@) {
        None => None,
        Some(pm) => msg_if_name(pm.nlas@),
    }
}

/// What a create request does to the link table. With the exclusive-create
/// flag pair the named link (and, for a veth, its peer) is created only when
/// no interface of either name exists yet, and the request is a protocol
/// error otherwise; without the pair the request mutates an existing link
/// and fails exactly when the name is absent, leaving membership unchanged.
pub open spec fn new_link_step(t: LinkTable, m: LinkMessage, excl_create: bool) -> Result<
    LinkTable,
    (),
> {
    match msg_if_name(m.nlas@) {
        None => Err(()),
        Some(n) => {
            if excl_create {
                match veth_peer_name(m) {
                    None => if t.contains_key(n) {
                        Err(())
                    } else {
                        Ok(t.insert(n, None))
                    },
                    Some(p) => if t.contains_key(n) || t.contains_key(p) || n == p {
                        Err(())
                    } else {
                        Ok(t.insert(n, Some(p)).insert(p, Some(n)))
                    },
                }
            } else {
                if t.contains_key(n) {
                    Ok(t)
                } else {
                    Err(())
                }
            }
        },
    }
}

/// What a delete request does to the link table: the named link is removed
/// together with its veth peer if it has one, and deleting an absent name is
/// a protocol error, surfaced verbatim rather than suppressed.
pub open spec fn del_link_step(t: LinkTable, m: LinkMessage) -> Result<LinkTable, ()> {
    match msg_if_name(m.nlas@) {
        None => Err(()),
        Some(n) => {
            if !t.contains_key(n) {
                Err(())
            } else {
                match t[n] {
                    None => Ok(t.remove(n)),
                    Some(p) => Ok(t.remove(n).remove(p)),
                }
            }
        },
    }
}

/// Whether a request header carries the exclusive-create flag pair.
pub open spec fn excl_create_flags(flags: u16) -> bool {
    flags & NLM_F_EXCL != 0 && flags & NLM_F_CREATE != 0
}

/// What one link request does to the link table; route requests leave it
/// alone.
pub open spec fn link_request_step(t: LinkTable, req: NetlinkRequest) -> Result<LinkTable, ()> {
    match req.payload {
        RtnlRequest::NewLink(m) => new_link_step(t, m, excl_create_flags(req.header.flags)),
        RtnlRequest::DelLink(m) => del_link_step(t, m),
        RtnlRequest::NewRoute(_) => Ok(t),
        RtnlRequest::DelRoute(_) => Ok(t),
    }
}

proof fn lemma_msg_veth_peer_at_last(nlas: Seq<Nla>)
    requires
        nlas.len() > 0,
        forall|j: int| 0 <= j < nlas.len() - 1 ==> nla_veth_peer(nlas[j]) is None,
    ensures
        msg_veth_peer(nlas) == nla_veth_peer(nlas.last()),
    decreases nlas.len(),
{
    if nlas.len() > 1 {
        assert(nla_veth_peer(nlas[0]) is None);
        let rest = nlas.drop_first();
        assert forall|j: int| 0 <= j < rest.len() - 1 implies nla_veth_peer(rest[j]) is None by {
            assert(rest[j] == nlas[j + 1]);
        }
        lemma_msg_veth_peer_at_last(rest);
        assert(rest.last() == nlas.last());
    } else {
        assert(nlas.last() == nlas[0]);
        if nla_veth_peer(nlas[0]) is None {
            assert(msg_veth_peer(nlas.drop_first()) is None);
        }
    }
}

proof fn lemma_msg_veth_peer_none(nlas: Seq<Nla>)
    requires
        forall|j: int| 0 <= j < nlas.len() ==> nla_veth_peer(nlas[j]) is None,
    ensures
        msg_veth_peer(nlas) is None,
    decreases nlas.len(),
{
    if nlas.len() > 0 {
        lemma_msg_veth_peer_none(nlas.drop_first());
    }
}

proof fn lemma_opt_nlas_carry_no_peer(ros: Seq<ResolvedOpt>)
    ensures
        forall|j: int|
            0 <= j < crate::iplink::opt_nlas(ros).len() ==> nla_veth_peer(
                #[trigger] crate::iplink::opt_nlas(ros)[j],
            ) is None,
    decreases ros.len(),
{
    if ros.len() > 0 {
        lemma_opt_nlas_carry_no_peer(ros.drop_last());
    }
}

/// What the protocol semantics reads off a message the request builder
/// produced: the name attribute carries the request's own name, and the
/// nested peer name is the veth's peer name exactly when the link kind is a
/// veth.
pub proof fn lemma_built_message_names(
    m: LinkMessage,
    name: Seq<char>,
    ros: Seq<ResolvedOpt>,
    lt: Option<LinkTypeEnum>,
    peer_opts: Seq<ResolvedOpt>,
)
    requires
        built_message(m, name, ros, lt, peer_opts),
    ensures
        msg_if_name(m.nlas@) == Some(name),
        match lt {
            Some(LinkTypeEnum::Veth(v)) => veth_peer_name(m) == Some(v.peer_name@),
            _ => veth_peer_name(m) is None,
        },
{
    let opt_part = crate::iplink::opt_nlas(ros);
    assert(m.nlas@[0] is IfName);
    assert(msg_if_name(m.nlas@) == Some(name));
    lemma_opt_nlas_carry_no_peer(ros);
    assert forall|j: int| 1 <= j < 1 + opt_part.len() implies nla_veth_peer(
        m.nlas@[j],
    ) is None by {
        assert(m.nlas@[j] == m.nlas@.subrange(1, 1 + opt_part.len() as int)[j - 1]);
        assert(nla_veth_peer(opt_part[j - 1]) is None);
    }
    match lt {
        None => {
            assert forall|j: int| 0 <= j < m.nlas@.len() implies nla_veth_peer(
                m.nlas@[j],
            ) is None by {}
            lemma_msg_veth_peer_none(m.nlas@);
        },
        Some(k) => {
            assert forall|j: int| 0 <= j < m.nlas@.len() - 1 implies nla_veth_peer(
                m.nlas@[j],
            ) is None by {}
            lemma_msg_veth_peer_at_last(m.nlas@);
            match k {
                LinkTypeEnum::Veth(v) => {
                    let last = m.nlas@.last();
                    let infos = last->Info_0;
                    assert(infos@[0] == Info::Kind(crate::iplink::InfoKind::Veth));
                    assert(!(infos@[0] matches Info::Data(InfoData::Veth(VethInfo::Peer(_)))));
                    let rest = infos@.drop_first();
                    assert(infos_veth_peer(infos@) == infos_veth_peer(rest));
                    assert(rest[0] == infos@[1]);
                    assert(rest[0] matches Info::Data(InfoData::Veth(VethInfo::Peer(_))));
                    let pm = msg_veth_peer(m.nlas@)->Some_0;
                    assert(crate::veth::is_peer_message(pm, v.peer_name@, peer_opts));
                    assert(pm.nlas@[0] is IfName);
                    assert(msg_if_name(pm.nlas@) == Some(v.peer_name@));
                },
                LinkTypeEnum::Bridge(_) => {
                    let last = m.nlas@.last();
                    let infos = last->Info_0;
                    assert(!(infos@[0] matches Info::Data(InfoData::Veth(VethInfo::Peer(_)))));
                    let rest = infos@.drop_first();
                    assert(infos_veth_peer(infos@) == infos_veth_peer(rest));
                    assert(rest[0] == infos@[1]);
                    assert(!(rest[0] matches Info::Data(InfoData::Veth(VethInfo::Peer(_)))));
                    assert(rest.drop_first().len() == 0);
                    assert(infos_veth_peer(rest.drop_first()) is None);
                },
            }
        },
    }
}

proof fn lemma_add_flags_excl_create()
    ensures
        excl_create_flags(action_flags(Action::Add)),
{
    assert(((0x0001u16 | 0x0004u16 | 0x0200u16 | 0x0400u16) & 0x0200u16) != 0) by (bit_vector);
    assert(((0x0001u16 | 0x0004u16 | 0x0200u16 | 0x0400u16) & 0x0400u16) != 0) by (bit_vector);
}

/// Adding a link whose name already exists fails with a protocol error: a
/// request built for `Action::Add` carries the exclusive-create flag pair,
/// so on a table already holding the name the step is an error — never a
/// silent success or an overwrite.
pub proof fn lemma_add_existing_link_fails(t: LinkTable, req: NetlinkRequest, name: Seq<char>)
    requires
        req.header.flags == action_flags(Action::Add),
        req.payload matches RtnlRequest::NewLink(m) && msg_if_name(m.nlas@) == Some(name),
        t.contains_key(name),
    ensures
        link_request_step(t, req) is Err,
{
    lemma_add_flags_excl_create();
}

/// Creating a link with `Add` and then deleting it with `Delete` leaves the
/// pre-existing link table exactly as it was: on a table holding neither the
/// new name nor (for a veth) the peer name, the add step succeeds, and the
/// delete step on its result returns that same table.
pub proof fn lemma_add_then_delete_round_trip(
    t: LinkTable,
    add_req: NetlinkRequest,
    del_req: NetlinkRequest,
    name: Seq<char>,
)
    requires
        add_req.header.flags == action_flags(Action::Add),
        add_req.payload matches RtnlRequest::NewLink(m) && msg_if_name(m.nlas@) == Some(name),
        del_req.payload matches RtnlRequest::DelLink(dm) && msg_if_name(dm.nlas@) == Some(name),
        !t.contains_key(name),
        match add_req.payload {
            RtnlRequest::NewLink(m) => match veth_peer_name(m) {
                Some(p) => !t.contains_key(p) && p != name,
                None => true,
            },
            _ => false,
        },
    ensures
        link_request_step(t, add_req) is Ok,
        link_request_step(link_request_step(t, add_req)->Ok_0, del_req) == Ok::<LinkTable, ()>(t),
{
    lemma_add_flags_excl_create();
    let m = add_req.payload->NewLink_0;
    match veth_peer_name(m) {
        None => {
            let t1 = t.insert(name, None);
            assert(link_request_step(t, add_req) == Ok::<LinkTable, ()>(t1));
            assert(t1.remove(name) =~= t);
        },
        Some(p) => {
            let t1 = t.insert(name, Some(p)).insert(p, Some(name));
            assert(link_request_step(t, add_req) == Ok::<LinkTable, ()>(t1));
            assert(t1[name] == Some(p));
            assert(t1.remove(name).remove(p) =~= t);
        },
    }
}

/// The exclusive-create guarantee stated over the request builder's own
/// output: an add request built for a name the table already holds is a
/// protocol error, whatever options and link kind the request carries.
pub proof fn lemma_built_add_existing_fails(
    t: LinkTable,
    req: NetlinkRequest,
    name: Seq<char>,
    ros: Seq<ResolvedOpt>,
    lt: Option<LinkTypeEnum>,
    peer_opts: Seq<ResolvedOpt>,
)
    requires
        req.header.flags == action_flags(Action::Add),
        req.payload matches RtnlRequest::NewLink(m) && built_message(m, name, ros, lt, peer_opts),
        t.contains_key(name),
    ensures
        link_request_step(t, req) is Err,
{
    let m = req.payload->NewLink_0;
    lemma_built_message_names(m, name, ros, lt, peer_opts);
    lemma_add_existing_link_fails(t, req, name);
}

/// The round trip stated over the request builder's own output: for an add
/// request and a delete request whose messages the builder produced for the
/// same name — the add with any options and link kind, the delete plain — a
/// table holding neither the name nor (for a veth) the peer name takes the
/// add, and the delete of its result gives back exactly the table it started
/// from.
pub proof fn lemma_built_requests_round_trip(
    t: LinkTable,
    add_req: NetlinkRequest,
    del_req: NetlinkRequest,
    name: Seq<char>,
    ros: Seq<ResolvedOpt>,
    lt: Option<LinkTypeEnum>,
    peer_opts: Seq<ResolvedOpt>,
    del_ros: Seq<ResolvedOpt>,
)
    requires
        add_req.header.flags == action_flags(Action::Add),
        add_req.payload matches RtnlRequest::NewLink(m) && built_message(
            m,
            name,
            ros,
            lt,
            peer_opts,
        ),
        del_req.payload matches RtnlRequest::DelLink(dm) && built_message(
            dm,
            name,
            del_ros,
            None,
            Seq::empty(),
        ),
        !t.contains_key(name),
        match lt {
            Some(LinkTypeEnum::Veth(v)) => !t.contains_key(v.peer_name@) && v.peer_name@ != name,
            _ => true,
        },
    ensures
        link_request_step(t, add_req) is Ok,
        link_request_step(link_request_step(t, add_req)->Ok_0, del_req) == Ok::<LinkTable, ()>(t),
{
    let m = add_req.payload->NewLink_0;
    let dm = del_req.payload->DelLink_0;
    lemma_built_message_names(m, name, ros, lt, peer_opts);
    lemma_built_message_names(dm, name, del_ros, None, Seq::empty());
    lemma_add_then_delete_round_trip(t, add_req, del_req, name);
}

} // verus!
