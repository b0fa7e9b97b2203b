//! The process configuration handed in at startup, and the accessors the
//! rest of the process reads it through.
use vstd::prelude::*;

verus! {

/// The public part of a process's configuration.
pub struct PublicConfiguration {
    /// Host and port of every process, indexed by rank minus one.
    pub tcp_locations: Vec<(String, u16)>,
    /// This process's rank, between 1 and the number of processes.
    pub self_rank: u8,
    /// Number of sectors the drive exposes.
    pub n_sectors: u64,
    /// Root directory for all durable state.
    pub storage_dir: String,
}

/// A process's complete configuration, including both HMAC keys.
pub struct Configuration {
    pub public: PublicConfiguration,
    /// 64-byte key authenticating process-to-process frames.
    pub hmac_system_key: Vec<u8>,
    /// 32-byte key authenticating client frames.
    pub hmac_client_key: Vec<u8>,
}

/// What a runnable configuration looks like: a real rank into the
/// process list, a process list a rank byte can index, and keys of the
/// documented sizes.
pub open spec fn spec_config_wf(config: Configuration) -> bool {
    &&& 1 <= config.public.self_rank as int
    &&& config.public.self_rank as int <= config.public.tcp_locations@.len()
    &&& config.public.tcp_locations@.len() <= 255
    &&& config.hmac_system_key@.len() == 64
    &&& config.hmac_client_key@.len() == 32
}

/// Read access to one process's configuration.
pub struct Context {
    pub config: Configuration,
}

impl Context {
    pub open spec fn wf(&self) -> bool {
        spec_config_wf(self.config)
    }

    pub fn new(config: Configuration) -> (r: Self)
        ensures
            r.config == config,
    {
        Self { config }
    }

    /// The address this process listens on.
    pub fn self_addr(&self) -> (r: &(String, u16))
        requires
            self.wf(),
        ensures
            r == &self.config.public.tcp_locations@[self.config.public.self_rank - 1],
    {
        &self.config.public.tcp_locations[(self.config.public.self_rank - 1) as usize]
    }

    /// This process's rank.
    pub fn self_rank(&self) -> (r: &u8)
        ensures
            r == &self.config.public.self_rank,
    {
        &self.config.public.self_rank
    }

    /// Every process's address, by rank minus one.
    pub fn tcp_locations(&self) -> (r: &Vec<(String, u16)>)
        ensures
            r == &self.config.public.tcp_locations,
    {
        &self.config.public.tcp_locations
    }

    /// The process-to-process frame key.
    pub fn hmac_system_key(&self) -> (r: &Vec<u8>)
        ensures
            r == &self.config.hmac_system_key,
    {
        &self.config.hmac_system_key
    }

    /// The client frame key.
    pub fn hmac_client_key(&self) -> (r: &Vec<u8>)
        ensures
            r == &self.config.hmac_client_key,
    {
        &self.config.hmac_client_key
    }

    /// The root directory for durable state.
    pub fn storage_dir(&self) -> (r: &String)
        ensures
            r == &self.config.public.storage_dir,
    {
        &self.config.public.storage_dir
    }

    /// How many processes replicate the drive.
    pub fn processes_count(&self) -> (r: u8)
        requires
            self.wf(),
        ensures
            r as int == self.config.public.tcp_locations@.len(),
    {
        self.config.public.tcp_locations.len() as u8
    }

    /// How many sectors the drive exposes.
    pub fn n_sectors(&self) -> (r: u64)
        ensures
            r == self.config.public.n_sectors,
    {
        self.config.public.n_sectors
    }
}

} // verus!
