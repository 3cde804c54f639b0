//! What the web server keeps of its hosts between runs: each host's address and port, and the
//! pairing material of the hosts that were paired.
use vstd::prelude::*;

use crate::host::MoonlightHost;
use crate::pairing::{pem_contents, spec_pem_contents};

verus! {

/// The pairing material of a paired host, each part a PEM document.
#[derive(Debug, Clone)]
pub struct PairedHost {
    pub client_private_key: String,
    pub client_certificate: String,
    pub server_certificate: String,
}

/// One stored host.
#[derive(Debug, Clone)]
pub struct Host {
    pub address: String,
    pub http_port: u16,
    pub paired: Option<PairedHost>,
}

/// Everything stored.
#[derive(Debug, Clone)]
pub struct ApiData {
    pub hosts: Vec<Host>,
}

/// A host while the server runs: the client's view of it, and the pairing material it was
/// stored with or paired with since.
pub struct RuntimeApiHost {
    pub moonlight: MoonlightHost,
    pub pair_info: Option<PairedHost>,
}

fn copy_paired(p: &Option<PairedHost>) -> (res: Option<PairedHost>)
    ensures
        res == *p,
{
    match p {
        None => None,
        Some(p) => Some(
            PairedHost {
                client_private_key: p.client_private_key.clone(),
                client_certificate: p.client_certificate.clone(),
                server_certificate: p.server_certificate.clone(),
            },
        ),
    }
}

/// `stored` is what is saved of the running host `h`.
pub open spec fn saved_as(h: RuntimeApiHost, stored: Host) -> bool {
    &&& stored.address@ == h.moonlight.address_view()
    &&& stored.http_port == h.moonlight.http_port_view()
    &&& stored.paired == h.pair_info
}

/// What is stored of the running hosts: one entry for each, in their order.
pub fn save(hosts: &Vec<RuntimeApiHost>) -> (res: ApiData)
    ensures
        res.hosts@.len() == hosts@.len(),
        forall|i: int| 0 <= i < hosts@.len() ==> saved_as(#[trigger] hosts@[i], res.hosts@[i]),
{
    let mut out: Vec<Host> = Vec::new();
    let mut i: usize = 0;
    while i < hosts.len()
        invariant
            i <= hosts@.len(),
            out@.len() == i,
            forall|j: int| 0 <= j < i ==> saved_as(#[trigger] hosts@[j], out@[j]),
        decreases hosts@.len() - i,
    {
        let h = &hosts[i];
        let address = h.moonlight.address().to_string();
        out.push(
            Host {
                address,
                http_port: h.moonlight.http_port(),
                paired: copy_paired(&h.pair_info),
            },
        );
        i = i + 1;
    }
    ApiData { hosts: out }
}

/// `h` is the running host made from the stored host `stored`: the client knows its address
/// and port, has asked it nothing yet, and keeps the stored pairing material.
pub open spec fn loaded_from(h: RuntimeApiHost, stored: Host) -> bool {
    &&& h.moonlight.address_view() == stored.address@
    &&& h.moonlight.http_port_view() == stored.http_port
    &&& !h.moonlight.tried()
    &&& h.moonlight.pair_info_view() is None
    &&& h.pair_info == stored.paired
}

/// A running host made from a stored one, known under the default id.
pub fn load_host(stored: &Host) -> (res: RuntimeApiHost)
    ensures
        loaded_from(res, *stored),
{
    RuntimeApiHost {
        moonlight: MoonlightHost::new(stored.address.clone(), stored.http_port, None),
        pair_info: copy_paired(&stored.paired),
    }
}

/// Saving a host that was loaded and not touched since stores what was loaded: the same
/// address, port and pairing material.
pub proof fn law_save_after_load(stored: Host, running: RuntimeApiHost, saved: Host)
    requires
        loaded_from(running, stored),
        saved_as(running, saved),
    ensures
        saved.address@ == stored.address@,
        saved.http_port == stored.http_port,
        saved.paired == stored.paired,
{
}

/// The three documents of `p` are PEM documents.
pub open spec fn pair_material_readable(p: PairedHost) -> bool {
    &&& spec_pem_contents(p.client_private_key@) is Some
    &&& spec_pem_contents(p.client_certificate@) is Some
    &&& spec_pem_contents(p.server_certificate@) is Some
}

/// Whether the stored material of a host can be tried against it at all: only when its key and
/// both certificates read as PEM documents; otherwise the host is taken as not paired.
pub fn pair_material_usable(paired: &PairedHost) -> (res: bool)
    ensures
        res == pair_material_readable(*paired),
{
    let key = pem_contents(paired.client_private_key.as_str());
    let cert = pem_contents(paired.client_certificate.as_str());
    let server = pem_contents(paired.server_certificate.as_str());
    key.is_ok() && cert.is_ok() && server.is_ok()
}

} // verus!
