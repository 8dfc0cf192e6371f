//! The configuration of the worker queues.
use crate::error::{configuration, BusError, BusErrorKind};
use crate::text::{concat3, decimal_nat, u64_to_decimal};
use vstd::utf8::encode_utf8;
use crate::time::{valid_delta, StdDuration, NANOS_PER_SEC};
use vstd::prelude::*;

verus! {

/// How the workers of one queue run.
#[derive(Clone, Copy, Debug)]
pub struct QueueConfiguration {
    pub workers: u32,
    pub max_attempts: u32,
    /// How long a job may run before it counts as failed (a `chrono::TimeDelta`, in nanoseconds).
    pub execution_timeout: i128,
    pub empty_queue_delay: StdDuration,
}

/// The configuration of one queue, as it is built.
pub struct QueueConfigBuilder {
    workers: u32,
    max_attempts: u32,
    execution_timeout: i128,
    empty_queue_delay: StdDuration,
}

impl QueueConfigBuilder {
    /// The configuration that `build` gives.
    pub closed spec fn spec_config(self) -> QueueConfiguration {
        QueueConfiguration {
            workers: self.workers,
            max_attempts: self.max_attempts,
            execution_timeout: self.execution_timeout,
            empty_queue_delay: self.empty_queue_delay,
        }
    }

    /// One worker, three attempts, ten minutes of execution, five seconds between polls of an empty queue.
    pub fn new() -> (b: Self)
        ensures
            b.spec_config().workers == 1,
            b.spec_config().max_attempts == 3,
            b.spec_config().execution_timeout == 10 * 60 * NANOS_PER_SEC,
            b.spec_config().empty_queue_delay.total_nanos() == 5 * NANOS_PER_SEC,
    {
        QueueConfigBuilder {
            workers: 1,
            max_attempts: 3,
            execution_timeout: 600_000_000_000,
            empty_queue_delay: StdDuration::from_secs(5),
        }
    }

    pub fn workers(self, count: u32) -> (b: Self)
        ensures
            b.spec_config() == (QueueConfiguration { workers: count, ..self.spec_config() }),
    {
        QueueConfigBuilder { workers: count, ..self }
    }

    pub fn max_attempts(self, count: u32) -> (b: Self)
        ensures
            b.spec_config() == (QueueConfiguration { max_attempts: count, ..self.spec_config() }),
    {
        QueueConfigBuilder { max_attempts: count, ..self }
    }

    /// The longest a job may run, in nanoseconds.
    pub fn execution_timeout(self, duration: i128) -> (b: Self)
        requires
            valid_delta(duration as int),
        ensures
            b.spec_config() == (QueueConfiguration { execution_timeout: duration, ..self.spec_config() }),
    {
        QueueConfigBuilder { execution_timeout: duration, ..self }
    }

    pub fn empty_queue_delay(self, delay: StdDuration) -> (b: Self)
        ensures
            b.spec_config() == (QueueConfiguration { empty_queue_delay: delay, ..self.spec_config() }),
    {
        QueueConfigBuilder { empty_queue_delay: delay, ..self }
    }

    fn build(self) -> (c: QueueConfiguration)
        ensures
            c == self.spec_config(),
    {
        QueueConfiguration {
            workers: self.workers,
            max_attempts: self.max_attempts,
            execution_timeout: self.execution_timeout,
            empty_queue_delay: self.empty_queue_delay,
        }
    }
}

/// The queue of the given name, looked up from the front.
pub open spec fn find_queue(queues: Seq<(String, QueueConfiguration)>, name: Seq<char>) -> Option<QueueConfiguration>
    decreases queues.len(),
{
    if queues.len() == 0 {
        None
    } else if queues[0].0@ == name {
        Some(queues[0].1)
    } else {
        find_queue(queues.drop_first(), name)
    }
}

/// Looks a queue up by name.
pub fn lookup_queue(queues: &Vec<(String, QueueConfiguration)>, name: &str) -> (r: Option<usize>)
    ensures
        r matches Some(i) ==> i < queues@.len() && find_queue(queues@, name@) == Some(queues@[i as int].1),
        r is None ==> find_queue(queues@, name@) is None,
{
    let mut i: usize = 0;
    assert(queues@.skip(0) =~= queues@);
    while i < queues.len()
        invariant
            i <= queues@.len(),
            find_queue(queues@, name@) == find_queue(queues@.skip(i as int), name@),
        decreases queues@.len() - i,
    {
        assert(queues@.skip(i as int).drop_first() =~= queues@.skip(i + 1));
        if crate::text::str_eq(queues[i].0.as_str(), name) {
            return Some(i);
        }
        i = i + 1;
    }
    None
}

/// The configuration of the bus queues, as it is built: a node name, a connection and the queues.
pub struct BusQueueConfigurationBuilder<C> {
    srv_name: String,
    connection: Option<C>,
    queues: Vec<(String, QueueConfiguration)>,
}

impl<C> BusQueueConfigurationBuilder<C> {
    pub closed spec fn spec_srv_name(self) -> Seq<char> {
        self.srv_name@
    }

    pub closed spec fn spec_connection(self) -> Option<C> {
        self.connection
    }

    pub closed spec fn spec_queues(self) -> Seq<(String, QueueConfiguration)> {
        self.queues@
    }

    /// A builder named by a fresh time-ordered identifier, with no connection and no queues.
    pub fn new() -> (b: Self)
        ensures
            b.spec_srv_name().len() == 36,
            b.spec_connection() is None,
            b.spec_queues().len() == 0,
    {
        BusQueueConfigurationBuilder {
            srv_name: crate::outside::fresh_node_name(),
            connection: None,
            queues: Vec::new(),
        }
    }

    pub fn srv_name(self, srv_name: String) -> (b: Self)
        ensures
            b.spec_srv_name() == srv_name@,
            b.spec_connection() == self.spec_connection(),
            b.spec_queues() == self.spec_queues(),
    {
        BusQueueConfigurationBuilder { srv_name, ..self }
    }

    pub fn connection(self, connection: C) -> (b: Self)
        ensures
            b.spec_srv_name() == self.spec_srv_name(),
            b.spec_connection() == Some(connection),
            b.spec_queues() == self.spec_queues(),
    {
        BusQueueConfigurationBuilder { connection: Some(connection), ..self }
    }

    /// Whether a queue of that name is configured.
    pub fn has_queue(&self, name: &str) -> (r: bool)
        ensures
            r == (find_queue(self.spec_queues(), name@) is Some),
    {
        lookup_queue(&self.queues, name).is_some()
    }

    /// Adds a queue; a name may be configured once.
    pub fn add_queue(self, name: String, config: QueueConfigBuilder) -> (b: Self)
        requires
            find_queue(self.spec_queues(), name@) is None,
        ensures
            b.spec_srv_name() == self.spec_srv_name(),
            b.spec_connection() == self.spec_connection(),
            b.spec_queues() == self.spec_queues().push((name, config.spec_config())),
    {
        let mut queues = self.queues;
        queues.push((name, config.build()));
        BusQueueConfigurationBuilder { srv_name: self.srv_name, connection: self.connection, queues }
    }

    /// The checks that come before the connection is opened: a node name of 1 to 128
    /// bytes, and a connection.
    pub fn check_before_connect(&self) -> (r: Result<(), BusError>)
        ensures
            r matches Err(e) ==> Some(e@) == pre_connect_error(self.spec_srv_name(), self.spec_connection() is Some),
            r is Ok <==> pre_connect_error(self.spec_srv_name(), self.spec_connection() is Some) is None,
    {
        let name = self.srv_name.as_str();
        if name.is_empty() {
            return Err(BusError::Configuration(String::from_str("srv_name cannot be empty")));
        }
        let len = name.len();
        if len > 128 {
            let digits = u64_to_decimal(len as u64);
            return Err(BusError::Configuration(concat3(
                "srv_name is too long (",
                digits.as_str(),
                " chars). Maximum is 128.",
            )));
        }
        if self.connection.is_none() {
            return Err(BusError::Configuration(String::from_str(
                "Database connection must be provided. Use .connection(opts) on the BusQueueConfigurationBuilder.",
            )));
        }
        Ok(())
    }

    /// The connection, where one was given: the build checks the schema through it.
    pub fn connection_ref(&self) -> (r: Option<&C>)
        ensures
            r is None <==> self.spec_connection() is None,
            r matches Some(c) ==> self.spec_connection() == Some(*c),
    {
        match &self.connection {
            Some(c) => Some(c),
            None => None,
        }
    }

    /// Builds the configuration, given the outcome of the schema query made through
    /// the connection: the number of the tables `bus_jobs` and `bus_jobs_peers` found,
    /// or the text of the query's error. The checks come in this order: the node name,
    /// the connection, the query, both tables, at least one queue.
    pub fn build(self, schema_check: Result<i64, String>) -> (r: Result<BusQueueConfiguration<C>, BusError>)
        ensures
            pre_connect_error(self.spec_srv_name(), self.spec_connection() is Some) matches Some(e)
                ==> (r matches Err(x) && x@ == e),
            pre_connect_error(self.spec_srv_name(), self.spec_connection() is Some) is None ==> match schema_check {
                Err(m) => r matches Err(x) && x@ == configuration(m@),
                Ok(n) => if n < 2 {
                    r matches Err(x) && x@ == configuration(missing_tables_message())
                } else if self.spec_queues().len() == 0 {
                    r matches Err(x) && x@ == configuration(no_queue_message())
                } else {
                    r matches Ok(c) && c.spec_srv_name() == self.spec_srv_name()
                        && Some(c.spec_connection()) == self.spec_connection()
                        && c.spec_queues() == self.spec_queues()
                },
            },
    {
        self.check_before_connect()?;
        let (srv_name, connection, queues) = self.into_parts();
        let connection = match connection {
            Some(c) => c,
            None => {
                return Err(BusError::Configuration(String::from_str(
                    "Database connection must be provided. Use .connection(opts) on the BusQueueConfigurationBuilder.",
                )));
            },
        };
        let tables_found = match schema_check {
            Ok(n) => n,
            Err(m) => {
                return Err(BusError::Configuration(m));
            },
        };
        BusQueueConfiguration::assemble(srv_name, connection, queues, tables_found)
    }

    /// The parts of the builder: node name, connection, queues.
    pub fn into_parts(self) -> (r: (String, Option<C>, Vec<(String, QueueConfiguration)>))
        ensures
            r.0@ == self.spec_srv_name(),
            r.1 == self.spec_connection(),
            r.2@ == self.spec_queues(),
    {
        (self.srv_name, self.connection, self.queues)
    }
}

/// The length in bytes of a text, as `str::len` gives it.
pub open spec fn byte_len(s: Seq<char>) -> usize {
    encode_utf8(s).len() as usize
}

/// The error of the checks before the connection is opened, if any: an empty node name,
/// a node name of more than 128 bytes, or no connection, in this order.
pub open spec fn pre_connect_error(srv_name: Seq<char>, has_connection: bool) -> Option<(BusErrorKind, Seq<char>)> {
    if srv_name.len() == 0 {
        Some(configuration("srv_name cannot be empty"@))
    } else if byte_len(srv_name) > 128 {
        Some(configuration("srv_name is too long ("@ + decimal_nat(byte_len(srv_name) as nat) + " chars). Maximum is 128."@))
    } else if !has_connection {
        Some(configuration("Database connection must be provided. Use .connection(opts) on the BusQueueConfigurationBuilder."@))
    } else {
        None
    }
}

/// The message when the schema lacks the tables of the queue.
pub open spec fn missing_tables_message() -> Seq<char> {
    "Required tables 'bus_jobs' or 'bus_jobs_peers' are missing. Please run migrations from: ../../../migrations/postgres.sql"@
}

/// The message when no queue is configured.
pub open spec fn no_queue_message() -> Seq<char> {
    "At least one queue must be configured. Use BusQueueConfigurationBuilder::add_queue(\"queue_name\", QueueConfigBuilder::new().build()) to define your worker queues before calling init()."@
}

/// The configuration of the bus queues: the node name, the connection, and the queues by name.
pub struct BusQueueConfiguration<C> {
    srv_name: String,
    connection: C,
    queues: Vec<(String, QueueConfiguration)>,
}

impl<C> BusQueueConfiguration<C> {
    pub closed spec fn spec_srv_name(self) -> Seq<char> {
        self.srv_name@
    }

    pub closed spec fn spec_connection(self) -> C {
        self.connection
    }

    pub closed spec fn spec_queues(self) -> Seq<(String, QueueConfiguration)> {
        self.queues@
    }

    /// The last checks of the build, made once the connection is open: the schema holds
    /// both tables of the queue (`tables_found` of `bus_jobs` and `bus_jobs_peers`), and
    /// at least one queue is configured.
    pub fn assemble(
        srv_name: String,
        connection: C,
        queues: Vec<(String, QueueConfiguration)>,
        tables_found: i64,
    ) -> (r: Result<Self, BusError>)
        ensures
            tables_found < 2 ==> (r matches Err(e) && e@ == configuration(missing_tables_message())),
            tables_found >= 2 && queues@.len() == 0 ==> (r matches Err(e) && e@ == configuration(no_queue_message())),
            tables_found >= 2 && queues@.len() > 0 ==> (r matches Ok(c) && c.spec_srv_name() == srv_name@
                && c.spec_connection() == connection && c.spec_queues() == queues@),
    {
        if tables_found < 2 {
            return Err(BusError::Configuration(String::from_str(
                "Required tables 'bus_jobs' or 'bus_jobs_peers' are missing. Please run migrations from: ../../../migrations/postgres.sql",
            )));
        }
        if queues.len() == 0 {
            return Err(BusError::Configuration(String::from_str(
                "At least one queue must be configured. Use BusQueueConfigurationBuilder::add_queue(\"queue_name\", QueueConfigBuilder::new().build()) to define your worker queues before calling init().",
            )));
        }
        Ok(BusQueueConfiguration { srv_name, connection, queues })
    }

    /// The configuration of a queue, or an error naming it.
    pub fn get_queue(&self, name: &str) -> (r: Result<&QueueConfiguration, BusError>)
        ensures
            r matches Ok(q) ==> find_queue(self.spec_queues(), name@) == Some(*q),
            r matches Err(e) ==> find_queue(self.spec_queues(), name@) is None
                && e@ == configuration("Queue configuration for '"@ + name@ + "' not found"@),
            r is Ok <==> find_queue(self.spec_queues(), name@) is Some,
    {
        match lookup_queue(&self.queues, name) {
            Some(i) => Ok(&self.queues[i].1),
            None => Err(BusError::Configuration(concat3("Queue configuration for '", name, "' not found"))),
        }
    }

    pub fn queues(&self) -> (r: &Vec<(String, QueueConfiguration)>)
        ensures
            r@ == self.spec_queues(),
    {
        &self.queues
    }

    pub fn srv_name(&self) -> (r: &str)
        ensures
            r@ == self.spec_srv_name(),
    {
        self.srv_name.as_str()
    }

    pub fn get_connection(&self) -> (r: &C)
        ensures
            *r == self.spec_connection(),
    {
        &self.connection
    }
}

} // verus!
