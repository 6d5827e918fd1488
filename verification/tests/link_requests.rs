use ipctl::bridge::Bridge;
use ipctl::bridge::InfoBridge;
use ipctl::iplink::Action;
use ipctl::iplink::IPLink;
use ipctl::iplink::Info;
use ipctl::iplink::InfoData;
use ipctl::iplink::InfoKind;
use ipctl::iplink::LinkMessage;
use ipctl::iplink::LinkTypeEnum;
use ipctl::iplink::Nla;
use ipctl::iplink::Opt;
use ipctl::iplink::ResolvedOpt;
use ipctl::iplink::VethInfo;
use ipctl::iplink::IFF_UP;
use ipctl::iplink::name;
use ipctl::iplink::options;
use ipctl::iproute::RouteMsg;
use ipctl::netlink::IpError;
use ipctl::netlink::NetlinkHeader;
use ipctl::netlink::NetlinkRequest;
use ipctl::netlink::ResponseFrame;
use ipctl::netlink::RtnlRequest;
use ipctl::netlink::interpret_response;
use ipctl::netlink::NLM_F_ACK;
use ipctl::netlink::NLM_F_CREATE;
use ipctl::netlink::NLM_F_EXCL;
use ipctl::netlink::NLM_F_REQUEST;
use ipctl::veth::Veth;

fn expect_if_name(nla: &Nla, want: &str) {
    match nla {
        Nla::IfName(s) => assert_eq!(s, want),
        _ => panic!("expected an interface-name attribute"),
    }
}

#[test]
fn test_action_flags() {
    let mut header = NetlinkHeader { flags: 0 };
    Action::Add.action(&mut header);
    assert_eq!(header.flags, NLM_F_REQUEST | NLM_F_ACK | NLM_F_EXCL | NLM_F_CREATE);
    assert_eq!(header.flags, 0x0605);

    Action::Delete.action(&mut header);
    assert_eq!(header.flags, NLM_F_REQUEST | NLM_F_ACK);
    assert_eq!(header.flags, 0x0005);

    Action::Modify.action(&mut header);
    assert_eq!(header.flags, 0x0005);
}

#[test]
fn test_name_appends_if_name() {
    let mut message = LinkMessage::default();
    name("v0", &mut message);
    assert_eq!(message.nlas.len(), 1);
    expect_if_name(&message.nlas[0], "v0");
    assert_eq!(message.header.flags, 0);
    assert_eq!(message.header.change_mask, 0);
}

#[test]
fn test_down_after_up_clears_up_flag() {
    let mut message = LinkMessage::default();
    ResolvedOpt::Up.apply(&mut message);
    assert_eq!(message.header.flags & IFF_UP, IFF_UP);
    assert_eq!(message.header.change_mask & IFF_UP, IFF_UP);
    ResolvedOpt::Down.apply(&mut message);
    assert_eq!(message.header.flags & IFF_UP, 0);
    assert_eq!(message.header.change_mask & IFF_UP, IFF_UP);
    assert!(message.nlas.is_empty());
}

#[test]
fn test_down_after_up_with_other_options_between() {
    let opts = vec![
        Opt::Up,
        Opt::Master(String::from("br0")),
        Opt::Down,
        Opt::NetNS(String::from("ns0")),
    ];
    let resolutions: Vec<Result<ResolvedOpt, IpError>> = vec![
        Ok(ResolvedOpt::Up),
        Ok(ResolvedOpt::Master(7)),
        Ok(ResolvedOpt::Down),
        Ok(ResolvedOpt::NetNS(33)),
    ];
    let mut message = LinkMessage::default();
    let r = options(&opts, &resolutions, &mut message);
    assert!(r.is_ok());
    assert_eq!(message.header.flags & IFF_UP, 0);
    assert_eq!(message.header.change_mask & IFF_UP, IFF_UP);
    assert_eq!(message.nlas.len(), 2);
    assert!(matches!(message.nlas[0], Nla::Master(7)));
    assert!(matches!(message.nlas[1], Nla::NetNsFd(33)));
}

#[test]
fn test_opt_applies_its_resolution() {
    let mut message = LinkMessage::default();
    let r = Opt::Master(String::from("br0")).opt(&Ok(ResolvedOpt::Master(7)), &mut message);
    assert_eq!(r, Ok(()));
    assert!(matches!(message.nlas[0], Nla::Master(7)));

    let r = Opt::NetNS(String::from("ns0")).opt(&Ok(ResolvedOpt::NetNS(5)), &mut message);
    assert_eq!(r, Ok(()));
    assert!(matches!(message.nlas[1], Nla::NetNsFd(5)));

    let r = Opt::Up.opt(&Err(IpError::Protocol(-1)), &mut message);
    assert_eq!(r, Err(IpError::Protocol(-1)));
    assert_eq!(message.nlas.len(), 2);
    assert_eq!(message.header.flags & IFF_UP, 0);
}

#[test]
fn test_options_abort_on_first_resolution_error() {
    let opts = vec![Opt::Up, Opt::Master(String::from("br0")), Opt::Down];
    let resolutions: Vec<Result<ResolvedOpt, IpError>> = vec![
        Ok(ResolvedOpt::Up),
        Err(IpError::LinkNotFound(String::from("br0"))),
        Ok(ResolvedOpt::Down),
    ];
    let mut message = LinkMessage::default();
    let r = options(&opts, &resolutions, &mut message);
    assert_eq!(r, Err(IpError::LinkNotFound(String::from("br0"))));
    // only the options before the failing one have been applied
    assert_eq!(message.header.flags & IFF_UP, IFF_UP);
    assert!(message.nlas.is_empty());
}

fn add_veth_request() -> NetlinkRequest {
    let link = IPLink {
        action: Action::Add,
        name: String::from("v0"),
        options: vec![],
        link_type: Some(LinkTypeEnum::Veth(Veth {
            peer_name: String::from("v1"),
            options: vec![],
        })),
    };
    link.build_request(&vec![], &vec![]).unwrap()
}

#[test]
fn test_veth_add_request() {
    let req = add_veth_request();
    assert_eq!(req.header.flags, 0x0605);
    let m = match &req.payload {
        RtnlRequest::NewLink(m) => m,
        _ => panic!("an add must be a new-link request"),
    };
    assert_eq!(m.nlas.len(), 2);
    expect_if_name(&m.nlas[0], "v0");
    let infos = match &m.nlas[1] {
        Nla::Info(infos) => infos,
        _ => panic!("expected the link-kind info attribute"),
    };
    assert_eq!(infos.len(), 2);
    assert!(matches!(infos[0], Info::Kind(InfoKind::Veth)));
    let peer = match &infos[1] {
        Info::Data(InfoData::Veth(VethInfo::Peer(pm))) => pm,
        _ => panic!("expected the nested peer message"),
    };
    assert_eq!(peer.nlas.len(), 1);
    expect_if_name(&peer.nlas[0], "v1");
}

#[test]
fn test_veth_then_delete_round_trip_requests() {
    let add = add_veth_request();
    assert!(matches!(add.payload, RtnlRequest::NewLink(_)));
    assert_eq!(add.header.flags & NLM_F_EXCL, NLM_F_EXCL);
    assert_eq!(add.header.flags & NLM_F_CREATE, NLM_F_CREATE);

    let del = IPLink {
        action: Action::Delete,
        name: String::from("v0"),
        options: vec![],
        link_type: None,
    }
    .build_request(&vec![], &vec![])
    .unwrap();
    assert_eq!(del.header.flags, 0x0005);
    let m = match &del.payload {
        RtnlRequest::DelLink(m) => m,
        _ => panic!("a delete must be a del-link request"),
    };
    assert_eq!(m.nlas.len(), 1);
    expect_if_name(&m.nlas[0], "v0");
}

#[test]
fn test_veth_peer_options_attach_to_peer() {
    let link = IPLink {
        action: Action::Add,
        name: String::from("v0"),
        options: vec![],
        link_type: Some(LinkTypeEnum::Veth(Veth {
            peer_name: String::from("v1"),
            options: vec![Opt::Up],
        })),
    };
    let peer_resolutions: Vec<Result<ResolvedOpt, IpError>> = vec![Ok(ResolvedOpt::Up)];
    let req = link.build_request(&vec![], &peer_resolutions).unwrap();
    let m = match &req.payload {
        RtnlRequest::NewLink(m) => m,
        _ => panic!("an add must be a new-link request"),
    };
    // the requesting side's header is untouched by peer options
    assert_eq!(m.header.flags & IFF_UP, 0);
    let infos = match &m.nlas[1] {
        Nla::Info(infos) => infos,
        _ => panic!("expected the link-kind info attribute"),
    };
    let peer = match &infos[1] {
        Info::Data(InfoData::Veth(VethInfo::Peer(pm))) => pm,
        _ => panic!("expected the nested peer message"),
    };
    assert_eq!(peer.header.flags & IFF_UP, IFF_UP);
    assert_eq!(peer.header.change_mask & IFF_UP, IFF_UP);
}

#[test]
fn test_veth_peer_resolution_error_aborts_build() {
    let link = IPLink {
        action: Action::Add,
        name: String::from("v0"),
        options: vec![],
        link_type: Some(LinkTypeEnum::Veth(Veth {
            peer_name: String::from("v1"),
            options: vec![Opt::Master(String::from("missing"))],
        })),
    };
    let peer_resolutions: Vec<Result<ResolvedOpt, IpError>> =
        vec![Err(IpError::LinkNotFound(String::from("missing")))];
    let r = link.build_request(&vec![], &peer_resolutions);
    assert_eq!(r.unwrap_err(), IpError::LinkNotFound(String::from("missing")));
}

#[test]
fn test_bridge_request() {
    let link = IPLink {
        action: Action::Add,
        name: String::from("br0"),
        options: vec![],
        link_type: Some(LinkTypeEnum::Bridge(Bridge {
            info: vec![InfoBridge::ForwardDelay(30), InfoBridge::StpState(1)],
        })),
    };
    let req = link.build_request(&vec![], &vec![]).unwrap();
    let m = match &req.payload {
        RtnlRequest::NewLink(m) => m,
        _ => panic!("an add must be a new-link request"),
    };
    expect_if_name(&m.nlas[0], "br0");
    let infos = match &m.nlas[1] {
        Nla::Info(infos) => infos,
        _ => panic!("expected the link-kind info attribute"),
    };
    assert!(matches!(infos[0], Info::Kind(InfoKind::Bridge)));
    match &infos[1] {
        Info::Data(InfoData::Bridge(v)) => {
            assert_eq!(v.len(), 2);
            assert!(matches!(v[0], InfoBridge::ForwardDelay(30)));
            assert!(matches!(v[1], InfoBridge::StpState(1)));
        },
        _ => panic!("expected the bridge info data"),
    }
}

#[test]
fn test_interpret_response() {
    let no_frames: Vec<ResponseFrame> = vec![];
    assert_eq!(interpret_response(&no_frames), Ok(()));

    let all_good = vec![ResponseFrame::Other, ResponseFrame::Other];
    assert_eq!(interpret_response(&all_good), Ok(()));

    let with_error = vec![
        ResponseFrame::Other,
        ResponseFrame::Error(-17),
        ResponseFrame::Error(-19),
    ];
    assert_eq!(interpret_response(&with_error), Err(IpError::Protocol(-17)));
}

#[test]
fn test_route_requests() {
    let add = ipctl::iproute::IPRoute {
        action: ipctl::iproute::Action::Add,
        msg: RouteMsg { table: 254 },
    }
    .build_request();
    assert_eq!(add.header.flags, 0x0605);
    assert!(matches!(add.payload, RtnlRequest::NewRoute(RouteMsg { table: 254 })));

    let del = ipctl::iproute::IPRoute {
        action: ipctl::iproute::Action::Del,
        msg: RouteMsg { table: 254 },
    }
    .build_request();
    assert_eq!(del.header.flags, 0x0005);
    assert!(matches!(del.payload, RtnlRequest::DelRoute(RouteMsg { table: 254 })));
}

#[test]
fn test_route_local_table_filter() {
    assert!(!RouteMsg { table: 255 }.should_readd());
    assert!(RouteMsg { table: 254 }.should_readd());
    assert!(RouteMsg { table: 0 }.should_readd());
}
