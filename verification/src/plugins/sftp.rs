//! Packets that offer access to a peer's files.
use vstd::prelude::*;

use crate::device::Device;
use crate::plugin_interface::Plugin;

verus! {

/// Where and how a peer's files can be reached, or why they cannot.
#[derive(Clone, Debug)]
pub struct Sftp {
    pub ip: Option<String>,
    pub port: Option<u16>,
    pub user: Option<String>,
    pub password: Option<String>,
    pub path: Option<String>,
    pub multi_paths: Vec<String>,
    pub path_names: Vec<String>,
    pub error_message: Option<String>,
}

impl Default for Sftp {
    fn default() -> (sftp: Sftp)
        ensures
            sftp.ip is None,
            sftp.port is None,
            sftp.user is None,
            sftp.password is None,
            sftp.path is None,
            sftp.multi_paths@ == Seq::<String>::empty(),
            sftp.path_names@ == Seq::<String>::empty(),
            sftp.error_message is None,
    {
        Sftp {
            ip: None,
            port: None,
            user: None,
            password: None,
            path: None,
            multi_paths: Vec::new(),
            path_names: Vec::new(),
            error_message: None,
        }
    }
}

impl Plugin for Sftp {
    open spec fn name(&self) -> Seq<char> {
        "kdeconnect.sftp"@
    }

    fn id(&self) -> &'static str {
        "kdeconnect.sftp"
    }
}

impl Sftp {
    /// Takes note of an offer. Offers call for no reaction.
    pub fn received_packet(self, _device: &Device) {
    }
}

} // verus!
