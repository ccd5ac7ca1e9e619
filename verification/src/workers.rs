use vstd::prelude::*;

verus! {

/// The port of the first worker unless another is set.
pub const DEFAULT_BASE_PORT: u16 = 8000;

/// Settings of a pool of plumber workers, each listening on a port of its
/// own counted up from a base port.
pub struct PlumberDispatcherBuilder {
    dir: String,
    base_port: u16,
    n_workers: usize,
}

impl PlumberDispatcherBuilder {
    /// The directory that holds the workers' entry point.
    pub closed spec fn spec_dir(&self) -> Seq<char> {
        self.dir@
    }

    pub closed spec fn spec_base_port(&self) -> u16 {
        self.base_port
    }

    pub closed spec fn spec_n_workers(&self) -> usize {
        self.n_workers
    }

    /// A pool of one worker in `dir`, counted from port 8000.
    pub fn new(dir: String) -> (b: Self)
        ensures
            b.spec_dir() == dir@,
            b.spec_base_port() == DEFAULT_BASE_PORT,
            b.spec_n_workers() == 1,
    {
        PlumberDispatcherBuilder { dir, base_port: DEFAULT_BASE_PORT, n_workers: 1 }
    }

    /// Sets the port of the first worker.
    pub fn base_port(self, base_port: u16) -> (b: Self)
        ensures
            b.spec_dir() == self.spec_dir(),
            b.spec_base_port() == base_port,
            b.spec_n_workers() == self.spec_n_workers(),
    {
        PlumberDispatcherBuilder { base_port, ..self }
    }

    /// Sets the number of workers.
    pub fn n_workers(self, n_workers: usize) -> (b: Self)
        ensures
            b.spec_dir() == self.spec_dir(),
            b.spec_base_port() == self.spec_base_port(),
            b.spec_n_workers() == n_workers,
    {
        PlumberDispatcherBuilder { n_workers, ..self }
    }

    /// The directory that holds the workers' entry point.
    pub fn dir(&self) -> (d: &str)
        ensures
            d@ == self.spec_dir(),
    {
        self.dir.as_str()
    }

    /// The port of the first worker.
    pub fn get_base_port(&self) -> (p: u16)
        ensures
            p == self.spec_base_port(),
    {
        self.base_port
    }

    /// The number of workers.
    pub fn get_n_workers(&self) -> (n: usize)
        ensures
            n == self.spec_n_workers(),
    {
        self.n_workers
    }
}

/// The port of worker `id`: the base port plus the id, the id taken
/// modulo 2^16 as `id as u16` does. The sum must fit in a port.
pub fn get_port(base: u16, id: usize) -> (p: u16)
    requires
        base + (id % 0x1_0000) <= u16::MAX,
    ensures
        p == base + (id % 0x1_0000),
{
    let low: u16 = (id % 0x1_0000) as u16;
    base + low
}

} // verus!
