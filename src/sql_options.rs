use vstd::prelude::*;

verus! {

/// How to connect to the database.
#[derive(Clone, Copy, Debug, PartialEq, Eq, Structural)]
pub enum MysqlConnectionType {
    /// Through a local router on the given port.
    Myrouter(u16),
    RawXDB,
    Mysql,
}

/// Options for database connections.
#[derive(Clone, Copy, Debug, PartialEq, Eq, Structural)]
pub struct MysqlOptions {
    pub connection_type: MysqlConnectionType,
    /// Read from the master only.
    pub master_only: bool,
}

/// Where reads go.
#[derive(Clone, Copy, Debug, PartialEq, Eq, Structural)]
pub enum ReadConnectionType {
    Replica,
    Master,
}

/// Sizes of the connection pools.
#[derive(Clone, Copy, Debug, PartialEq, Eq, Structural)]
pub struct PoolSizeConfig {
    pub write_pool_size: usize,
    pub read_pool_size: usize,
    pub read_master_pool_size: usize,
}

impl MysqlOptions {
    /// Reads go to the master when the options say master only, else to a
    /// replica.
    pub fn read_connection_type(&self) -> (r: ReadConnectionType)
        ensures
            r == if self.master_only {
                ReadConnectionType::Master
            } else {
                ReadConnectionType::Replica
            },
    {
        if self.master_only {
            ReadConnectionType::Master
        } else {
            ReadConnectionType::Replica
        }
    }
}

} // verus!
