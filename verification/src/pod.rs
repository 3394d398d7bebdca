//! `.pod` Quadlet files: network attachment lines and downgrading to older Podman versions.

use vstd::prelude::*;
use crate::collections::{attachment_entries, attachments_get_index, attachments_len};
use crate::net::{IpAddr, ip_text, ipv4_text, ipv6_text};
use crate::quadlet::{
    Dns, DnsView, MountSource, MountSourceView, MountView, Pod, PodNetworkOptions, PodView,
    mount_views,
};
use crate::text::{has_white_space, str_has_white_space, texts};

verus! {

/// The text of one network attachment: `<name>.network`, followed by `:ip=<addr>` when a static
/// address is set.
pub open spec fn attachment_line(name: Seq<char>, opts: PodNetworkOptions) -> Seq<char> {
    name + ".network"@ + match opts.ip {
        Some(ip) => ":ip="@ + ipv4_text(ip.octets@),
        None => seq![],
    }
}

/// The `Network=` values of the network attachments, in order.
pub open spec fn attachment_lines(e: Seq<(Seq<char>, PodNetworkOptions)>) -> Seq<Seq<char>> {
    e.map_values(|x: (Seq<char>, PodNetworkOptions)| attachment_line(x.0, x.1))
}

/// `PodmanArgs=` after adding `--<flag> <arg>`, separated by a space from what it held; an
/// argument holding white space is quoted.
pub open spec fn push_arg_text(args: Option<Seq<char>>, flag: Seq<char>, arg: Seq<char>) -> Seq<
    char,
> {
    let base = match args {
        Some(a) => a,
        None => seq![],
    };
    let sep = if base.len() > 0 {
        seq![' ']
    } else {
        seq![]
    };
    base + sep + "--"@ + flag + seq![' '] + if has_white_space(arg) {
        seq!['"'] + arg + seq!['"']
    } else {
        arg
    }
}

/// `PodmanArgs=` after adding `--<flag> <arg>` for each argument in order.
pub open spec fn push_args_text(args: Option<Seq<char>>, flag: Seq<char>, values: Seq<Seq<char>>) -> Option<
    Seq<char>,
>
    decreases values.len(),
{
    if values.len() == 0 {
        args
    } else {
        Some(push_arg_text(push_args_text(args, flag, values.drop_last()), flag, values.last()))
    }
}

/// The arguments of an optional value.
pub open spec fn opt_values(o: Option<Seq<char>>) -> Seq<Seq<char>> {
    match o {
        Some(v) => seq![v],
        None => seq![],
    }
}

/// The `--dns` arguments of a DNS setting.
pub open spec fn dns_values(d: DnsView) -> Seq<Seq<char>> {
    match d {
        DnsView::Off => seq!["none"@],
        DnsView::Custom(ips) => ips.map_values(|ip: IpAddr| ip_text(ip)),
    }
}

/// The pod after moving the options Quadlet gained in Podman v5.3.0 into `PodmanArgs=`.
pub open spec fn without_v5_3_options(p: PodView) -> PodView {
    let a = push_args_text(p.podman_args, "add-host"@, p.add_host);
    let a = push_args_text(a, "dns"@, dns_values(p.dns));
    let a = push_args_text(a, "dns-option"@, p.dns_option);
    let a = push_args_text(a, "dns-search"@, p.dns_search);
    let a = push_args_text(a, "gidmap"@, p.gid_map);
    let a = push_args_text(
        a,
        "ip"@,
        match p.ip {
            Some(ip) => seq![ipv4_text(ip.octets@)],
            None => seq![],
        },
    );
    let a = push_args_text(
        a,
        "ip6"@,
        match p.ip6 {
            Some(ip) => seq![ipv6_text(ip.segments@)],
            None => seq![],
        },
    );
    let a = push_args_text(a, "subgidname"@, opt_values(p.sub_gid_map));
    let a = push_args_text(a, "subuidname"@, opt_values(p.sub_uid_map));
    let a = push_args_text(a, "uidmap"@, p.uid_map);
    let a = push_args_text(a, "userns"@, opt_values(p.user_ns));
    PodView {
        add_host: seq![],
        dns: DnsView::Custom(seq![]),
        dns_option: seq![],
        dns_search: seq![],
        gid_map: seq![],
        ip: None,
        ip6: None,
        sub_gid_map: None,
        sub_uid_map: None,
        uid_map: seq![],
        user_ns: None,
        podman_args: a,
        ..p
    }
}

/// The pod after moving `NetworkAlias=` (added to Quadlet in Podman v5.2.0) into `PodmanArgs=`.
pub open spec fn without_v5_2_options(p: PodView) -> PodView {
    PodView {
        network_alias: seq![],
        podman_args: push_args_text(p.podman_args, "network-alias"@, p.network_alias),
        ..p
    }
}

/// A Podman version that Quadlet options are tracked against, oldest first.
#[derive(Clone, Copy, PartialEq, Eq, Debug)]
pub enum PodmanVersion {
    V4_4,
    V4_5,
    V4_6,
    V4_7,
    V4_8,
    V5_0,
    V5_1,
    V5_2,
    V5_3,
}

/// The position of a version among the tracked versions, oldest first.
pub open spec fn version_rank(v: PodmanVersion) -> nat {
    match v {
        PodmanVersion::V4_4 => 0,
        PodmanVersion::V4_5 => 1,
        PodmanVersion::V4_6 => 2,
        PodmanVersion::V4_7 => 3,
        PodmanVersion::V4_8 => 4,
        PodmanVersion::V5_0 => 5,
        PodmanVersion::V5_1 => 6,
        PodmanVersion::V5_2 => 7,
        PodmanVersion::V5_3 => 8,
    }
}

impl PodmanVersion {
    /// The position of the version among the tracked versions, oldest first.
    pub fn rank(self) -> (r: u8)
        ensures
            r as nat == version_rank(self),
    {
        match self {
            PodmanVersion::V4_4 => 0,
            PodmanVersion::V4_5 => 1,
            PodmanVersion::V4_6 => 2,
            PodmanVersion::V4_7 => 3,
            PodmanVersion::V4_8 => 4,
            PodmanVersion::V5_0 => 5,
            PodmanVersion::V5_1 => 6,
            PodmanVersion::V5_2 => 7,
            PodmanVersion::V5_3 => 8,
        }
    }

    /// Whether this version is older than `other`.
    pub fn is_before(self, other: PodmanVersion) -> (r: bool)
        ensures
            r == (version_rank(self) < version_rank(other)),
    {
        self.rank() < other.rank()
    }
}

/// The kinds of Quadlet files.
#[derive(Clone, Copy, PartialEq, Eq, Debug)]
pub enum ResourceKind {
    Container,
    Kube,
    Network,
    Pod,
    Volume,
    Build,
    Image,
}

/// A file cannot be downgraded to the requested Podman version.
#[derive(Clone, Copy, PartialEq, Eq, Debug)]
pub enum DowngradeError {
    /// Quadlet supports this kind of file only from `supported_version` on.
    Kind { kind: ResourceKind, supported_version: PodmanVersion },
}

/// The pod after downgrading to `version`.
pub open spec fn downgraded(p: PodView, version: PodmanVersion) -> PodView {
    let p = if version_rank(version) < version_rank(PodmanVersion::V5_3) {
        without_v5_3_options(p)
    } else {
        p
    };
    if version_rank(version) < version_rank(PodmanVersion::V5_2) {
        without_v5_2_options(p)
    } else {
        p
    }
}

/// Adding no argument leaves `PodmanArgs=` as it is; adding one argument adds it.
proof fn lemma_push_args_short(args: Option<Seq<char>>, flag: Seq<char>, values: Seq<Seq<char>>)
    ensures
        values.len() == 0 ==> push_args_text(args, flag, values) == args,
        values.len() == 1 ==> push_args_text(args, flag, values) == Some(
            push_arg_text(args, flag, values[0]),
        ),
{
    if values.len() == 1 {
        assert(values.drop_last().len() == 0);
        assert(push_args_text(args, flag, values.drop_last()) == args);
        assert(values.last() == values[0]);
    }
}

/// The host paths that the mounts read from, in order: the source of each mount from a host path.
pub open spec fn mount_host_paths(m: Seq<MountView>) -> Seq<Seq<char>>
    decreases m.len(),
{
    if m.len() == 0 {
        seq![]
    } else {
        mount_host_paths(m.drop_last()) + match m.last().source {
            Some(MountSourceView::HostPath(p)) => seq![p],
            _ => seq![],
        }
    }
}

impl Pod {
    /// The host paths of the pod's volumes, in order.
    pub fn host_paths(&self) -> (r: Vec<String>)
        ensures
            texts(r@) == mount_host_paths(mount_views(self.volume@)),
    {
        let ghost m = mount_views(self.volume@);
        let mut paths: Vec<String> = Vec::new();
        let mut i: usize = 0;
        while i < self.volume.len()
            invariant
                m == mount_views(self.volume@),
                i <= self.volume.len(),
                texts(paths@) == mount_host_paths(m.subrange(0, i as int)),
            decreases self.volume.len() - i,
        {
            assert(m.subrange(0, i + 1).drop_last() =~= m.subrange(0, i as int));
            if let Some(MountSource::HostPath(path)) = &self.volume[i].source {
                paths.push(path.clone());
            }
            assert(texts(paths@) =~= mount_host_paths(m.subrange(0, i + 1)));
            i = i + 1;
        }
        assert(m.subrange(0, self.volume.len() as int) =~= m);
        paths
    }

    /// The `Network=` values of the named network attachments, in order: `<name>.network`,
    /// followed by `:ip=<addr>` when a static address is set.
    pub fn network_attachment_lines(&self) -> (r: Vec<String>)
        ensures
            texts(r@) == attachment_lines(attachment_entries(self.network_attachments)),
    {
        let ghost e = attachment_entries(self.network_attachments);
        let n = attachments_len(&self.network_attachments);
        let mut lines: Vec<String> = Vec::new();
        let mut i: usize = 0;
        while i < n
            invariant
                e == attachment_entries(self.network_attachments),
                n == e.len(),
                i <= n,
                lines.len() == i,
                forall|j: int| 0 <= j < i ==> (#[trigger] lines@[j])@ == attachment_line(e[j].0, e[j].1),
            decreases n - i,
        {
            let (name, opts) = attachments_get_index(&self.network_attachments, i);
            let mut s = name.clone();
            proof { reveal_strlit(".network"); }
            s.append(".network");
            if let Some(ip) = opts.ip {
                proof { reveal_strlit(":ip="); }
                s.append(":ip=");
                let t = ip.to_text();
                s.append(t.as_str());
            }
            assert(s@ =~= attachment_line(e[i as int].0, e[i as int].1));
            lines.push(s);
            i = i + 1;
        }
        assert(texts(lines@) =~= attachment_lines(e));
        lines
    }

    /// Add `--{flag} {arg}` to `PodmanArgs=`.
    pub fn push_arg(&mut self, flag: &str, arg: &str)
        ensures
            final(self)@ == (PodView {
                podman_args: Some(push_arg_text(old(self)@.podman_args, flag@, arg@)),
                ..old(self)@
            }),
    {
        let mut args = match self.podman_args.take() {
            Some(a) => a,
            None => String::new(),
        };
        assert(args@ == match old(self)@.podman_args {
            Some(a) => a,
            None => seq![],
        });
        if args.unicode_len() > 0 {
            proof { reveal_strlit(" "); }
            args.append(" ");
        }
        proof { reveal_strlit("--"); }
        args.append("--");
        args.append(flag);
        proof { reveal_strlit(" "); }
        args.append(" ");
        if str_has_white_space(arg) {
            proof { reveal_strlit("\""); }
            args.append("\"");
            args.append(arg);
            args.append("\"");
        } else {
            args.append(arg);
        }
        assert(args@ =~= push_arg_text(old(self)@.podman_args, flag@, arg@));
        self.podman_args = Some(args);
    }

    /// Add `--{flag} {arg}` to `PodmanArgs=` for each argument, in order.
    fn push_args(&mut self, flag: &str, values: Vec<String>)
        ensures
            final(self)@ == (PodView {
                podman_args: push_args_text(old(self)@.podman_args, flag@, texts(values@)),
                ..old(self)@
            }),
    {
        let mut i: usize = 0;
        while i < values.len()
            invariant
                i <= values.len(),
                self@ == (PodView {
                    podman_args: push_args_text(
                        old(self)@.podman_args,
                        flag@,
                        texts(values@.subrange(0, i as int)),
                    ),
                    ..old(self)@
                }),
            decreases values.len() - i,
        {
            proof {
                let p = texts(values@.subrange(0, i + 1));
                assert(p.drop_last() =~= texts(values@.subrange(0, i as int)));
                assert(p.last() == values@[i as int]@);
            }
            self.push_arg(flag, values[i].as_str());
            i = i + 1;
        }
        assert(values@.subrange(0, values.len() as int) =~= values@);
    }

    /// Move the Quadlet options added in Podman v5.3.0 into `PodmanArgs=`.
    pub fn remove_v5_3_options(&mut self)
        ensures
            final(self)@ == without_v5_3_options(old(self)@),
    {
        let ghost p = self@;
        let mut add_host: Vec<String> = Vec::new();
        core::mem::swap(&mut add_host, &mut self.add_host);
        self.push_args("add-host", add_host);
        let ghost a = push_args_text(p.podman_args, "add-host"@, p.add_host);
        assert(self@.podman_args == a);

        let mut dns = Dns::Custom(Vec::new());
        core::mem::swap(&mut dns, &mut self.dns);
        let dns_args = match dns {
            Dns::Off => {
                let mut v: Vec<String> = Vec::new();
                proof { reveal_strlit("none"); }
                v.push("none".to_owned());
                assert(texts(v@) =~= seq!["none"@]);
                v
            },
            Dns::Custom(ip_addrs) => {
                let mut v: Vec<String> = Vec::new();
                let mut i: usize = 0;
                while i < ip_addrs.len()
                    invariant
                        i <= ip_addrs.len(),
                        v.len() == i,
                        forall|j: int| 0 <= j < i ==> (#[trigger] v@[j])@ == ip_text(ip_addrs@[j]),
                    decreases ip_addrs.len() - i,
                {
                    v.push(ip_addrs[i].to_text());
                    i = i + 1;
                }
                assert(texts(v@) =~= ip_addrs@.map_values(|ip: IpAddr| ip_text(ip)));
                v
            },
        };
        assert(texts(dns_args@) == dns_values(p.dns));
        self.push_args("dns", dns_args);
        let ghost a = push_args_text(a, "dns"@, dns_values(p.dns));
        assert(self@.podman_args == a);

        let mut dns_option: Vec<String> = Vec::new();
        core::mem::swap(&mut dns_option, &mut self.dns_option);
        self.push_args("dns-option", dns_option);
        let ghost a = push_args_text(a, "dns-option"@, p.dns_option);
        assert(self@.podman_args == a);

        let mut dns_search: Vec<String> = Vec::new();
        core::mem::swap(&mut dns_search, &mut self.dns_search);
        self.push_args("dns-search", dns_search);
        let ghost a = push_args_text(a, "dns-search"@, p.dns_search);
        assert(self@.podman_args == a);

        let mut gid_map: Vec<String> = Vec::new();
        core::mem::swap(&mut gid_map, &mut self.gid_map);
        self.push_args("gidmap", gid_map);
        let ghost a = push_args_text(a, "gidmap"@, p.gid_map);
        assert(self@.podman_args == a);

        let ghost v = match p.ip {
            Some(ip) => seq![ipv4_text(ip.octets@)],
            None => seq![],
        };
        proof { lemma_push_args_short(a, "ip"@, v); }
        if let Some(ip) = self.ip.take() {
            self.push_arg("ip", ip.to_text().as_str());
        }
        let ghost a = push_args_text(a, "ip"@, v);
        assert(self@.podman_args == a);

        let ghost v = match p.ip6 {
            Some(ip) => seq![ipv6_text(ip.segments@)],
            None => seq![],
        };
        proof { lemma_push_args_short(a, "ip6"@, v); }
        if let Some(ip6) = self.ip6.take() {
            self.push_arg("ip6", ip6.to_text().as_str());
        }
        let ghost a = push_args_text(a, "ip6"@, v);
        assert(self@.podman_args == a);

        proof { lemma_push_args_short(a, "subgidname"@, opt_values(p.sub_gid_map)); }
        if let Some(subgidname) = self.sub_gid_map.take() {
            self.push_arg("subgidname", subgidname.as_str());
        }
        let ghost a = push_args_text(a, "subgidname"@, opt_values(p.sub_gid_map));
        assert(self@.podman_args == a);

        proof { lemma_push_args_short(a, "subuidname"@, opt_values(p.sub_uid_map)); }
        if let Some(subuidname) = self.sub_uid_map.take() {
            self.push_arg("subuidname", subuidname.as_str());
        }
        let ghost a = push_args_text(a, "subuidname"@, opt_values(p.sub_uid_map));
        assert(self@.podman_args == a);

        let mut uid_map: Vec<String> = Vec::new();
        core::mem::swap(&mut uid_map, &mut self.uid_map);
        self.push_args("uidmap", uid_map);
        let ghost a = push_args_text(a, "uidmap"@, p.uid_map);
        assert(self@.podman_args == a);

        proof { lemma_push_args_short(a, "userns"@, opt_values(p.user_ns)); }
        if let Some(userns) = self.user_ns.take() {
            self.push_arg("userns", userns.as_str());
        }
        proof {
            assert(texts(self.add_host@) =~= seq![]);
            assert(texts(self.dns_option@) =~= seq![]);
            assert(texts(self.dns_search@) =~= seq![]);
            assert(texts(self.gid_map@) =~= seq![]);
            assert(texts(self.uid_map@) =~= seq![]);
            if let Dns::Custom(v) = &self.dns {
                assert(v@ =~= seq![]);
            }
        }
    }

    /// Downgrade the pod for an older Podman version: options that Quadlet does not know in that
    /// version move into `PodmanArgs=`.
    ///
    /// # Errors
    ///
    /// Quadlet supports `.pod` files from Podman v5.0.0 on; for an older version the error says
    /// so, and the pod is left downgraded as far as it goes.
    pub fn downgrade(&mut self, version: PodmanVersion) -> (r: Result<(), DowngradeError>)
        ensures
            final(self)@ == downgraded(old(self)@, version),
            match r {
                Ok(()) => version_rank(version) >= version_rank(PodmanVersion::V5_0),
                Err(e) => version_rank(version) < version_rank(PodmanVersion::V5_0) && e
                    == (DowngradeError::Kind {
                    kind: ResourceKind::Pod,
                    supported_version: PodmanVersion::V5_0,
                }),
            },
    {
        if version.is_before(PodmanVersion::V5_3) {
            self.remove_v5_3_options();
        }

        if version.is_before(PodmanVersion::V5_2) {
            let mut network_alias: Vec<String> = Vec::new();
            core::mem::swap(&mut network_alias, &mut self.network_alias);
            self.push_args("network-alias", network_alias);
            assert(texts(self.network_alias@) =~= seq![]);
        }

        if version.is_before(PodmanVersion::V5_0) {
            return Err(
                DowngradeError::Kind {
                    kind: ResourceKind::Pod,
                    supported_version: PodmanVersion::V5_0,
                },
            );
        }

        Ok(())
    }
}

} // verus!
