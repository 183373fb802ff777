//! The compiled network configuration: the constants that identify one
//! deployment, identical in every binary built for it.
//!
//! The secret members arrive here already de-obfuscated (see `obfuscate`);
//! the derived strings — topic, protocol identifiers, file names — are
//! formed from the network name exactly as stated in each contract.

use vstd::prelude::*;
use vstd::string::StringExecFns;

use crate::crypto::{DILITHIUM_PUBLIC_KEY_LEN, PRESHARED_KEY_LEN, STATE_KEY_LEN};

verus! {

/// The parameters of one deployment: its name, the preshared key that
/// closes the swarm, the operator public key every command is checked
/// against, the key that encrypts the local state, the seed addresses for
/// bootstrapping, and the default listen port (0: let the system choose).
pub struct NetworkProfile {
    pub network_name: String,
    pub swarm_preshared_key: Vec<u8>,
    pub dilithium_public_key: Vec<u8>,
    pub storage_encryption_key: Vec<u8>,
    pub seed_nodes: Vec<String>,
    pub default_listen_port: u16,
}

impl NetworkProfile {
    /// The embedded keys have their exact lengths.
    pub open spec fn wf(&self) -> bool {
        &&& self.swarm_preshared_key@.len() == PRESHARED_KEY_LEN
        &&& self.storage_encryption_key@.len() == STATE_KEY_LEN
        &&& self.dilithium_public_key@.len() == DILITHIUM_PUBLIC_KEY_LEN
    }

    pub fn new(
        network_name: String,
        swarm_preshared_key: Vec<u8>,
        dilithium_public_key: Vec<u8>,
        storage_encryption_key: Vec<u8>,
        seed_nodes: Vec<String>,
        default_listen_port: u16,
    ) -> (r: NetworkProfile)
        requires
            swarm_preshared_key@.len() == PRESHARED_KEY_LEN,
            storage_encryption_key@.len() == STATE_KEY_LEN,
            dilithium_public_key@.len() == DILITHIUM_PUBLIC_KEY_LEN,
        ensures
            r.wf(),
            r.network_name@ == network_name@,
            r.swarm_preshared_key@ == swarm_preshared_key@,
            r.dilithium_public_key@ == dilithium_public_key@,
            r.storage_encryption_key@ == storage_encryption_key@,
            r.seed_nodes == seed_nodes,
            r.default_listen_port == default_listen_port,
    {
        NetworkProfile {
            network_name,
            swarm_preshared_key,
            dilithium_public_key,
            storage_encryption_key,
            seed_nodes,
            default_listen_port,
        }
    }

    /// The pub/sub topic every node subscribes to: the network name.
    pub fn gossipsub_topic(&self) -> (r: String)
        ensures
            r@ == self.network_name@,
    {
        self.network_name.clone()
    }

    /// The peer-info exchange protocol identifier:
    /// `/<network-name>/id/1.0.0`.
    pub fn identify_protocol(&self) -> (r: String)
        ensures
            r@ == "/"@ + self.network_name@ + "/id/1.0.0"@,
    {
        let mut s = String::from_str("/");
        s.append(self.network_name.as_str());
        s.append("/id/1.0.0");
        s
    }

    /// The DHT protocol identifier: `/<network-name>/kad/1.0.0`.
    pub fn kademlia_protocol(&self) -> (r: String)
        ensures
            r@ == "/"@ + self.network_name@ + "/kad/1.0.0"@,
    {
        let mut s = String::from_str("/");
        s.append(self.network_name.as_str());
        s.append("/kad/1.0.0");
        s
    }

    /// The name of the encrypted state file beside the executable:
    /// `<network-name>.bin`.
    pub fn state_file_name(&self) -> (r: String)
        ensures
            r@ == self.network_name@ + ".bin"@,
    {
        let mut s = self.network_name.clone();
        s.append(".bin");
        s
    }

    /// The name of the operator private-key file beside the executable:
    /// `<network-name>.key`.
    pub fn key_file_name(&self) -> (r: String)
        ensures
            r@ == self.network_name@ + ".key"@,
    {
        let mut s = self.network_name.clone();
        s.append(".key");
        s
    }
}

} // verus!
