//! Configuration of the bridge program: the command line over the file.
//!
//! Addresses and paths are held as text.

use crate::text::{copy_list, text_option};
use vstd::prelude::*;

verus! {

/// The command line.
#[derive(Clone, Debug, PartialEq, Eq)]
pub struct Cli {
    /// Path to the configuration file.
    pub config: Option<String>,
    /// Name of the node.
    pub name: Option<String>,
    /// Address to bind in the mesh.
    pub bind: Option<String>,
    /// Static peers of the mesh, `NODE_ID_HEX@ADDR`.
    pub peer: Vec<String>,
    /// Address to listen on, as a manager.
    pub sapient_listen: Option<String>,
    /// Address of the manager to connect to, as a node.
    pub sapient_remote: Option<String>,
    /// Identity of that manager.
    pub sapient_peer_id: Option<String>,
    pub sapient_tls: Option<bool>,
    pub sapient_cert: Option<String>,
    pub sapient_key: Option<String>,
    pub sapient_ca_cert: Option<String>,
    pub sapient_server_name: Option<String>,
    /// Directory for persistent data.
    pub storage: Option<String>,
    pub tak_server: Option<String>,
    pub tak_tls: Option<bool>,
    pub tak_cert: Option<String>,
    pub tak_key: Option<String>,
    pub tak_ca_cert: Option<String>,
    pub tak_callsign: Option<String>,
    pub tak_server_name: Option<String>,
    /// Largest size of a message from the TAK server, in bytes.
    pub tak_max_message_bytes: Option<u64>,
    /// Identity of the TAK server.
    pub tak_peer_id: Option<String>,
}

#[derive(Clone, Debug, PartialEq, Eq)]
pub struct NodeConfig {
    pub name: Option<String>,
    pub bind: Option<String>,
    pub storage: Option<String>,
}

impl Default for NodeConfig {
    fn default() -> (config: Self)
        ensures
            config.name is None,
            config.bind is None,
            config.storage is None,
    {
        NodeConfig { name: None, bind: None, storage: None }
    }
}

#[derive(Clone, Debug, PartialEq, Eq)]
pub struct MeshConfig {
    /// Formation that the mesh authenticates.
    pub formation_id: Option<String>,
    /// Base64 text of the formation's shared secret.
    pub shared_key: Option<String>,
    /// Static peers, `NODE_ID_HEX@ADDR`.
    pub peers: Vec<String>,
}

impl Default for MeshConfig {
    fn default() -> (config: Self)
        ensures
            config.formation_id is None,
            config.shared_key is None,
            config.peers@.len() == 0,
    {
        MeshConfig { formation_id: None, shared_key: None, peers: Vec::new() }
    }
}

#[derive(Clone, Debug, PartialEq, Eq)]
pub struct SapientConfig {
    /// `hldmm` or `dlmm`.
    pub role: Option<String>,
    pub listen: Option<String>,
    pub remote: Option<String>,
    pub peer_node_id: Option<String>,
    pub tls: Option<bool>,
    pub cert: Option<String>,
    pub key: Option<String>,
    pub ca_cert: Option<String>,
    pub tls_server_name: Option<String>,
}

impl Default for SapientConfig {
    fn default() -> (config: Self)
        ensures
            config.role is None,
            config.listen is None,
            config.remote is None,
            config.peer_node_id is None,
            config.tls is None,
            config.cert is None,
            config.key is None,
            config.ca_cert is None,
            config.tls_server_name is None,
    {
        SapientConfig {
            role: None,
            listen: None,
            remote: None,
            peer_node_id: None,
            tls: None,
            cert: None,
            key: None,
            ca_cert: None,
            tls_server_name: None,
        }
    }
}

#[derive(Clone, Debug, PartialEq, Eq)]
pub struct TakConfig {
    pub server: Option<String>,
    pub tls: Option<bool>,
    pub client_cert: Option<String>,
    pub client_key: Option<String>,
    pub ca_cert: Option<String>,
    pub callsign: Option<String>,
    pub tls_server_name: Option<String>,
    pub peer_node_id: Option<String>,
    pub max_message_bytes: Option<u64>,
}

impl Default for TakConfig {
    fn default() -> (config: Self)
        ensures
            config.server is None,
            config.tls is None,
            config.client_cert is None,
            config.client_key is None,
            config.ca_cert is None,
            config.callsign is None,
            config.tls_server_name is None,
            config.peer_node_id is None,
            config.max_message_bytes is None,
    {
        TakConfig {
            server: None,
            tls: None,
            client_cert: None,
            client_key: None,
            ca_cert: None,
            callsign: None,
            tls_server_name: None,
            peer_node_id: None,
            max_message_bytes: None,
        }
    }
}

#[derive(Clone, Debug, PartialEq, Eq)]
pub struct Config {
    pub node: NodeConfig,
    pub mesh: MeshConfig,
    pub sapient: SapientConfig,
    pub tak: TakConfig,
}

/// A configuration that says nothing.
pub open spec fn is_blank(config: Config) -> bool {
    &&& config.node.name is None && config.node.bind is None && config.node.storage is None
    &&& config.mesh.formation_id is None && config.mesh.shared_key is None
    &&& config.mesh.peers@.len() == 0
    &&& config.sapient.role is None && config.sapient.listen is None && config.sapient.remote is None
    &&& config.sapient.peer_node_id is None && config.sapient.tls is None
    &&& config.sapient.cert is None && config.sapient.key is None && config.sapient.ca_cert is None
    &&& config.sapient.tls_server_name is None
    &&& config.tak.server is None && config.tak.tls is None && config.tak.client_cert is None
    &&& config.tak.client_key is None && config.tak.ca_cert is None && config.tak.callsign is None
    &&& config.tak.tls_server_name is None && config.tak.peer_node_id is None
    &&& config.tak.max_message_bytes is None
}

impl Default for Config {
    fn default() -> (config: Self)
        ensures
            is_blank(config),
    {
        Config {
            node: NodeConfig::default(),
            mesh: MeshConfig::default(),
            sapient: SapientConfig::default(),
            tak: TakConfig::default(),
        }
    }
}

/// A setting of the command line over one of the file.
pub open spec fn over<T>(flag: Option<T>, setting: Option<T>) -> Option<T> {
    match flag {
        Some(value) => Some(value),
        None => setting,
    }
}

/// The role that the addresses of the command line imply over that of the file:
/// the address of a manager makes a node, an address to listen on makes a
/// manager.
pub open spec fn implied_role(cli: Cli, role: Option<String>) -> Option<Seq<char>> {
    if cli.sapient_remote is Some {
        Some("dlmm"@)
    } else if cli.sapient_listen is Some {
        Some("hldmm"@)
    } else {
        text_option(role)
    }
}

/// `loaded` is the configuration of a file overridden by the command line.
pub open spec fn is_overridden(loaded: Config, file: Config, cli: Cli) -> bool {
    &&& loaded.node.name == over(cli.name, file.node.name)
    &&& loaded.node.bind == over(cli.bind, file.node.bind)
    &&& loaded.node.storage == over(cli.storage, file.node.storage)
    &&& loaded.mesh.formation_id == file.mesh.formation_id
    &&& loaded.mesh.shared_key == file.mesh.shared_key
    &&& loaded.mesh.peers@ == file.mesh.peers@ + cli.peer@
    &&& text_option(loaded.sapient.role) == implied_role(cli, file.sapient.role)
    &&& loaded.sapient.listen == over(cli.sapient_listen, file.sapient.listen)
    &&& loaded.sapient.remote == over(cli.sapient_remote, file.sapient.remote)
    &&& loaded.sapient.peer_node_id == over(cli.sapient_peer_id, file.sapient.peer_node_id)
    &&& loaded.sapient.tls == over(cli.sapient_tls, file.sapient.tls)
    &&& loaded.sapient.cert == over(cli.sapient_cert, file.sapient.cert)
    &&& loaded.sapient.key == over(cli.sapient_key, file.sapient.key)
    &&& loaded.sapient.ca_cert == over(cli.sapient_ca_cert, file.sapient.ca_cert)
    &&& loaded.sapient.tls_server_name == over(
        cli.sapient_server_name,
        file.sapient.tls_server_name,
    )
    &&& loaded.tak.server == over(cli.tak_server, file.tak.server)
    &&& loaded.tak.tls == over(cli.tak_tls, file.tak.tls)
    &&& loaded.tak.client_cert == over(cli.tak_cert, file.tak.client_cert)
    &&& loaded.tak.client_key == over(cli.tak_key, file.tak.client_key)
    &&& loaded.tak.ca_cert == over(cli.tak_ca_cert, file.tak.ca_cert)
    &&& loaded.tak.callsign == over(cli.tak_callsign, file.tak.callsign)
    &&& loaded.tak.tls_server_name == over(cli.tak_server_name, file.tak.tls_server_name)
    &&& text_option(loaded.tak.peer_node_id) == over(
        text_option(over(cli.tak_peer_id, file.tak.peer_node_id)),
        Some("tak-server-0"@),
    )
    &&& loaded.tak.max_message_bytes == over(
        cli.tak_max_message_bytes,
        file.tak.max_message_bytes,
    )
}

fn take_over(flag: &Option<String>, setting: Option<String>) -> (value: Option<String>)
    ensures
        value == over(*flag, setting),
{
    match flag {
        Some(text) => Some(text.clone()),
        None => setting,
    }
}

fn flag_over(flag: Option<bool>, setting: Option<bool>) -> (value: Option<bool>)
    ensures
        value == over(flag, setting),
{
    match flag {
        Some(on) => Some(on),
        None => setting,
    }
}

impl Config {
    /// The configuration: what the command line says over what the file says, if
    /// there is one. The peers of both are taken, and the TAK server is
    /// `tak-server-0` where neither names it.
    pub fn load(cli: &Cli, file: Option<Config>) -> (loaded: Config)
        ensures
            match file {
                Some(f) => is_overridden(loaded, f, *cli),
                None => exists|blank: Config| #[trigger]
                    is_blank(blank) && is_overridden(loaded, blank, *cli),
            },
    {
        let base = match file {
            Some(config) => config,
            None => Config::default(),
        };
        let ghost start = base;
        let role = match (&cli.sapient_remote, &cli.sapient_listen) {
            (Some(_), _) => Some("dlmm".to_owned()),
            (None, Some(_)) => Some("hldmm".to_owned()),
            (None, None) => base.sapient.role,
        };
        let mut peers = base.mesh.peers;
        let mut added = copy_list(&cli.peer);
        peers.append(&mut added);
        let peer_node_id = match take_over(&cli.tak_peer_id, base.tak.peer_node_id) {
            Some(id) => Some(id),
            None => Some("tak-server-0".to_owned()),
        };
        let loaded = Config {
            node: NodeConfig {
                name: take_over(&cli.name, base.node.name),
                bind: take_over(&cli.bind, base.node.bind),
                storage: take_over(&cli.storage, base.node.storage),
            },
            mesh: MeshConfig {
                formation_id: base.mesh.formation_id,
                shared_key: base.mesh.shared_key,
                peers,
            },
            sapient: SapientConfig {
                role,
                listen: take_over(&cli.sapient_listen, base.sapient.listen),
                remote: take_over(&cli.sapient_remote, base.sapient.remote),
                peer_node_id: take_over(&cli.sapient_peer_id, base.sapient.peer_node_id),
                tls: flag_over(cli.sapient_tls, base.sapient.tls),
                cert: take_over(&cli.sapient_cert, base.sapient.cert),
                key: take_over(&cli.sapient_key, base.sapient.key),
                ca_cert: take_over(&cli.sapient_ca_cert, base.sapient.ca_cert),
                tls_server_name: take_over(
                    &cli.sapient_server_name,
                    base.sapient.tls_server_name,
                ),
            },
            tak: TakConfig {
                server: take_over(&cli.tak_server, base.tak.server),
                tls: flag_over(cli.tak_tls, base.tak.tls),
                client_cert: take_over(&cli.tak_cert, base.tak.client_cert),
                client_key: take_over(&cli.tak_key, base.tak.client_key),
                ca_cert: take_over(&cli.tak_ca_cert, base.tak.ca_cert),
                callsign: take_over(&cli.tak_callsign, base.tak.callsign),
                tls_server_name: take_over(&cli.tak_server_name, base.tak.tls_server_name),
                peer_node_id,
                max_message_bytes: match cli.tak_max_message_bytes {
                    Some(bytes) => Some(bytes),
                    None => base.tak.max_message_bytes,
                },
            },
        };
        proof {
            assert(is_overridden(loaded, start, *cli));
        }
        loaded
    }
}

/// The command line wins: what it says is taken, and what it leaves out is taken
/// from the file. The formation and its key come from the file alone, and the
/// peers of the command line are added behind those of the file.
pub proof fn law_command_line_wins(loaded: Config, file: Config, cli: Cli)
    requires
        is_overridden(loaded, file, cli),
    ensures
        loaded.node.name == if cli.name is Some { cli.name } else { file.node.name },
        loaded.node.bind == if cli.bind is Some { cli.bind } else { file.node.bind },
        loaded.node.storage == if cli.storage is Some { cli.storage } else { file.node.storage },
        loaded.mesh.formation_id == file.mesh.formation_id,
        loaded.mesh.shared_key == file.mesh.shared_key,
        loaded.mesh.peers@.len() == file.mesh.peers@.len() + cli.peer@.len(),
        loaded.mesh.peers@.take(file.mesh.peers@.len() as int) == file.mesh.peers@,
        loaded.mesh.peers@.skip(file.mesh.peers@.len() as int) == cli.peer@,
        loaded.sapient.listen == if cli.sapient_listen is Some {
            cli.sapient_listen
        } else {
            file.sapient.listen
        },
        loaded.sapient.remote == if cli.sapient_remote is Some {
            cli.sapient_remote
        } else {
            file.sapient.remote
        },
        loaded.sapient.peer_node_id == if cli.sapient_peer_id is Some {
            cli.sapient_peer_id
        } else {
            file.sapient.peer_node_id
        },
        loaded.sapient.tls == if cli.sapient_tls is Some { cli.sapient_tls } else { file.sapient.tls },
        loaded.sapient.cert == if cli.sapient_cert is Some {
            cli.sapient_cert
        } else {
            file.sapient.cert
        },
        loaded.sapient.key == if cli.sapient_key is Some { cli.sapient_key } else { file.sapient.key },
        loaded.sapient.ca_cert == if cli.sapient_ca_cert is Some {
            cli.sapient_ca_cert
        } else {
            file.sapient.ca_cert
        },
        loaded.sapient.tls_server_name == if cli.sapient_server_name is Some {
            cli.sapient_server_name
        } else {
            file.sapient.tls_server_name
        },
        loaded.tak.server == if cli.tak_server is Some { cli.tak_server } else { file.tak.server },
        loaded.tak.tls == if cli.tak_tls is Some { cli.tak_tls } else { file.tak.tls },
        loaded.tak.client_cert == if cli.tak_cert is Some {
            cli.tak_cert
        } else {
            file.tak.client_cert
        },
        loaded.tak.client_key == if cli.tak_key is Some { cli.tak_key } else { file.tak.client_key },
        loaded.tak.ca_cert == if cli.tak_ca_cert is Some {
            cli.tak_ca_cert
        } else {
            file.tak.ca_cert
        },
        loaded.tak.callsign == if cli.tak_callsign is Some {
            cli.tak_callsign
        } else {
            file.tak.callsign
        },
        loaded.tak.tls_server_name == if cli.tak_server_name is Some {
            cli.tak_server_name
        } else {
            file.tak.tls_server_name
        },
        loaded.tak.max_message_bytes == if cli.tak_max_message_bytes is Some {
            cli.tak_max_message_bytes
        } else {
            file.tak.max_message_bytes
        },
{
    let n = file.mesh.peers@.len() as int;
    assert(loaded.mesh.peers@.take(n) =~= file.mesh.peers@);
    assert(loaded.mesh.peers@.skip(n) =~= cli.peer@);
}

/// The role follows from the addresses of the command line, that of a manager to
/// connect to before one to listen on, and comes from the file where there are
/// none. The TAK server has a name in any case.
pub proof fn law_addresses_imply_the_role(loaded: Config, file: Config, cli: Cli)
    requires
        is_overridden(loaded, file, cli),
    ensures
        cli.sapient_remote is Some ==> loaded.sapient.role is Some && loaded.sapient.role->0@
            == "dlmm"@,
        cli.sapient_remote is None && cli.sapient_listen is Some ==> loaded.sapient.role is Some
            && loaded.sapient.role->0@ == "hldmm"@,
        cli.sapient_remote is None && cli.sapient_listen is None ==> {
            &&& loaded.sapient.role is Some <==> file.sapient.role is Some
            &&& loaded.sapient.role is Some ==> loaded.sapient.role->0@ == file.sapient.role->0@
        },
        loaded.tak.peer_node_id is Some,
        cli.tak_peer_id matches Some(id) ==> loaded.tak.peer_node_id->0@ == id@,
        cli.tak_peer_id is None ==> (file.tak.peer_node_id matches Some(id)
            ==> loaded.tak.peer_node_id->0@ == id@),
        cli.tak_peer_id is None && file.tak.peer_node_id is None ==> loaded.tak.peer_node_id->0@
            == "tak-server-0"@,
{
}

/// A blank configuration says nothing: loaded over one, the command line is all
/// that there is.
pub proof fn law_blank_configuration_adds_nothing(loaded: Config, blank: Config, cli: Cli)
    requires
        is_blank(blank),
        is_overridden(loaded, blank, cli),
    ensures
        loaded.mesh.peers@ == cli.peer@,
        loaded.mesh.formation_id is None && loaded.mesh.shared_key is None,
        loaded.node.name == cli.name && loaded.node.bind == cli.bind && loaded.node.storage
            == cli.storage,
        loaded.sapient.tls == cli.sapient_tls && loaded.tak.tls == cli.tak_tls,
        loaded.sapient.listen == cli.sapient_listen && loaded.sapient.remote == cli.sapient_remote,
        loaded.sapient.cert == cli.sapient_cert && loaded.sapient.key == cli.sapient_key
            && loaded.sapient.ca_cert == cli.sapient_ca_cert,
        loaded.sapient.peer_node_id == cli.sapient_peer_id && loaded.sapient.tls_server_name
            == cli.sapient_server_name,
        loaded.tak.server == cli.tak_server && loaded.tak.client_cert == cli.tak_cert
            && loaded.tak.client_key == cli.tak_key && loaded.tak.ca_cert == cli.tak_ca_cert,
        loaded.tak.callsign == cli.tak_callsign && loaded.tak.tls_server_name
            == cli.tak_server_name && loaded.tak.max_message_bytes == cli.tak_max_message_bytes,
        cli.sapient_remote is None && cli.sapient_listen is None ==> loaded.sapient.role is None,
{
    assert(loaded.mesh.peers@ =~= cli.peer@);
}

} // verus!
