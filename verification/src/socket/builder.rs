//! Configuration of sockets before they are made: which options to set, in
//! which order, on a listener, a connector or a datagram socket.

use std::marker::PhantomData;
use vstd::prelude::*;
use crate::addr::Domain;
use crate::socket::options::SockOpt;
use crate::sys;

verus! {

/// Buffer size configuration.
#[derive(Debug, Clone, Copy)]
pub struct BufferConfig {
    pub recv: Option<usize>,
    pub send: Option<usize>,
}

impl Default for BufferConfig {
    fn default() -> (r: Self)
        ensures
            r == (BufferConfig { recv: None, send: None }),
    {
        Self { recv: None, send: None }
    }
}

impl BufferConfig {
    /// The options that the configuration asks for, in the order in which
    /// they are set: the receive buffer size, then the send buffer size,
    /// each where it is given.
    pub open spec fn option_seq(self) -> Seq<SockOpt> {
        (match self.recv {
            Some(size) => seq![SockOpt::RecvBufferSize(size)],
            None => seq![],
        }) + (match self.send {
            Some(size) => seq![SockOpt::SendBufferSize(size)],
            None => seq![],
        })
    }

    /// A configuration that sets no buffer size.
    pub fn new() -> (r: Self)
        ensures
            r == (BufferConfig { recv: None, send: None }),
    {
        Self { recv: None, send: None }
    }

    /// Sets the receive buffer size.
    pub fn recv(self, size: usize) -> (r: Self)
        ensures
            r == (BufferConfig { recv: Some(size), ..self }),
    {
        let mut r = self;
        r.recv = Some(size);
        r
    }

    /// Sets the send buffer size.
    pub fn send(self, size: usize) -> (r: Self)
        ensures
            r == (BufferConfig { send: Some(size), ..self }),
    {
        let mut r = self;
        r.send = Some(size);
        r
    }

    /// Sets both buffer sizes.
    pub fn both(self, size: usize) -> (r: Self)
        ensures
            r == (BufferConfig { recv: Some(size), send: Some(size) }),
    {
        let mut r = self;
        r.recv = Some(size);
        r.send = Some(size);
        r
    }

    /// Adds the options of the configuration to `out`, in order.
    pub fn apply(&self, out: &mut Vec<SockOpt>)
        ensures
            final(out)@ == old(out)@ + self.option_seq(),
    {
        if let Some(size) = self.recv {
            out.push(SockOpt::RecvBufferSize(size));
        }
        if let Some(size) = self.send {
            out.push(SockOpt::SendBufferSize(size));
        }
        assert(out@ =~= old(out)@ + self.option_seq());
    }
}

/// Address reuse configuration.
#[derive(Debug, Clone, Copy)]
pub struct ReuseConfig {
    pub addr: bool,
    pub port: bool,
}

impl Default for ReuseConfig {
    fn default() -> (r: Self)
        ensures
            r == (ReuseConfig { addr: true, port: false }),
    {
        Self { addr: true, port: false }
    }
}

impl ReuseConfig {
    /// The options that the configuration asks for, in the order in which
    /// they are set: address reuse, then port reuse, each where it is on.
    pub open spec fn option_seq(self) -> Seq<SockOpt> {
        (if self.addr {
            seq![SockOpt::ReuseAddr(true)]
        } else {
            seq![]
        }) + (if self.port {
            seq![SockOpt::ReusePort(true)]
        } else {
            seq![]
        })
    }

    /// The configuration that servers want: address reuse on, port reuse
    /// off.
    pub fn new() -> (r: Self)
        ensures
            r == (ReuseConfig { addr: true, port: false }),
    {
        Self { addr: true, port: false }
    }

    /// Turns address reuse on or off.
    pub fn addr(self, enable: bool) -> (r: Self)
        ensures
            r == (ReuseConfig { addr: enable, ..self }),
    {
        let mut r = self;
        r.addr = enable;
        r
    }

    /// Turns port reuse on or off.
    pub fn port(self, enable: bool) -> (r: Self)
        ensures
            r == (ReuseConfig { port: enable, ..self }),
    {
        let mut r = self;
        r.port = enable;
        r
    }

    /// Turns both on, for load balancing across threads.
    pub fn both(self) -> (r: Self)
        ensures
            r == (ReuseConfig { addr: true, port: true }),
    {
        let mut r = self;
        r.addr = true;
        r.port = true;
        r
    }

    /// Adds the options of the configuration to `out`, in order.
    pub fn apply(&self, out: &mut Vec<SockOpt>)
        ensures
            final(out)@ == old(out)@ + self.option_seq(),
    {
        if self.addr {
            out.push(SockOpt::ReuseAddr(true));
        }
        if self.port {
            out.push(SockOpt::ReusePort(true));
        }
        assert(out@ =~= old(out)@ + self.option_seq());
    }
}

/// Keep-alive timing configuration.
#[derive(Debug, Clone, Copy)]
pub struct KeepaliveConfig {
    pub idle_secs: u32,
    pub interval_secs: u32,
    pub count: u32,
}

impl Default for KeepaliveConfig {
    fn default() -> (r: Self)
        ensures
            r == (KeepaliveConfig { idle_secs: 60, interval_secs: 10, count: 5 }),
    {
        Self { idle_secs: 60, interval_secs: 10, count: 5 }
    }
}

impl KeepaliveConfig {
    /// The default timing: the first probe after 60 idle seconds, 10 seconds
    /// between probes, 5 unanswered probes.
    pub fn new() -> (r: Self)
        ensures
            r == (KeepaliveConfig { idle_secs: 60, interval_secs: 10, count: 5 }),
    {
        Self { idle_secs: 60, interval_secs: 10, count: 5 }
    }

    /// Sets the idle time before the first probe.
    pub fn idle(self, secs: u32) -> (r: Self)
        ensures
            r == (KeepaliveConfig { idle_secs: secs, ..self }),
    {
        let mut r = self;
        r.idle_secs = secs;
        r
    }

    /// Sets the time between probes.
    pub fn interval(self, secs: u32) -> (r: Self)
        ensures
            r == (KeepaliveConfig { interval_secs: secs, ..self }),
    {
        let mut r = self;
        r.interval_secs = secs;
        r
    }

    /// Sets the number of unanswered probes.
    pub fn count(self, count: u32) -> (r: Self)
        ensures
            r == (KeepaliveConfig { count, ..self }),
    {
        let mut r = self;
        r.count = count;
        r
    }
}

/// TCP-specific configuration.
#[derive(Debug, Clone, Copy)]
pub struct TcpConfig {
    pub nodelay: bool,
    pub keepalive: Option<KeepaliveConfig>,
    pub linger: Option<Option<u32>>,
}

impl Default for TcpConfig {
    fn default() -> (r: Self)
        ensures
            r == (TcpConfig { nodelay: true, keepalive: None, linger: None }),
    {
        Self { nodelay: true, keepalive: None, linger: None }
    }
}

impl TcpConfig {
    /// The options that the configuration asks for on a socket that is or is
    /// not of the Unix domain, in the order in which they are set. A
    /// Unix-domain socket gets none of the TCP options, only the linger
    /// option. Keep-alive is turned on before its timing is set.
    pub open spec fn option_seq(self, is_unix: bool) -> Seq<SockOpt> {
        (if !is_unix && self.nodelay {
            seq![SockOpt::TcpNodelay(true)]
        } else {
            seq![]
        }) + (match self.keepalive {
            Some(config) if !is_unix => seq![
                SockOpt::Keepalive(true),
                SockOpt::KeepaliveIdle(config.idle_secs),
                SockOpt::KeepaliveInterval(config.interval_secs),
                SockOpt::KeepaliveCount(config.count),
            ],
            _ => seq![],
        }) + (match self.linger {
            Some(linger) => seq![SockOpt::Linger(linger)],
            None => seq![],
        })
    }

    /// The default: small writes go out at once, no keep-alive, linger left
    /// to the operating system.
    pub fn new() -> (r: Self)
        ensures
            r == (TcpConfig { nodelay: true, keepalive: None, linger: None }),
    {
        Self { nodelay: true, keepalive: None, linger: None }
    }

    /// Turns the sending of small writes at once on or off.
    pub fn nodelay(self, enable: bool) -> (r: Self)
        ensures
            r == (TcpConfig { nodelay: enable, ..self }),
    {
        let mut r = self;
        r.nodelay = enable;
        r
    }

    /// Turns keep-alive on with the given timing.
    pub fn keepalive(self, config: KeepaliveConfig) -> (r: Self)
        ensures
            r == (TcpConfig { keepalive: Some(config), ..self }),
    {
        let mut r = self;
        r.keepalive = Some(config);
        r
    }

    /// Sets what closing does with unsent data.
    pub fn linger(self, seconds: Option<u32>) -> (r: Self)
        ensures
            r == (TcpConfig { linger: Some(seconds), ..self }),
    {
        let mut r = self;
        r.linger = Some(seconds);
        r
    }

    /// Adds the options of the configuration to `out`, in order.
    pub fn apply(&self, out: &mut Vec<SockOpt>, is_unix: bool)
        ensures
            final(out)@ == old(out)@ + self.option_seq(is_unix),
    {
        if !is_unix && self.nodelay {
            out.push(SockOpt::TcpNodelay(true));
        }
        if !is_unix {
            if let Some(config) = self.keepalive {
                out.push(SockOpt::Keepalive(true));
                out.push(SockOpt::KeepaliveIdle(config.idle_secs));
                out.push(SockOpt::KeepaliveInterval(config.interval_secs));
                out.push(SockOpt::KeepaliveCount(config.count));
            }
        }
        if let Some(linger) = self.linger {
            out.push(SockOpt::Linger(linger));
        }
        assert(out@ =~= old(out)@ + self.option_seq(is_unix));
    }
}

/// What a listener builder holds.
pub struct ListenerSettings {
    pub reuse: ReuseConfig,
    pub tcp: TcpConfig,
    pub buffers: BufferConfig,
    pub backlog: i32,
    pub nonblocking: bool,
}

/// The steps that make a listener, after the socket is created: set the
/// options in order, stopping at the first that fails; set the socket
/// non-blocking where asked; bind; listen with the backlog.
pub struct ListenPlan {
    pub options: Vec<SockOpt>,
    pub nonblocking: bool,
    pub backlog: i32,
}

/// Builder for stream listeners.
pub struct ListenerBuilder<D: Domain> {
    reuse: ReuseConfig,
    tcp: TcpConfig,
    buffers: BufferConfig,
    backlog: i32,
    nonblocking: bool,
    _marker: PhantomData<D>,
}

impl<D: Domain> View for ListenerBuilder<D> {
    type V = ListenerSettings;

    closed spec fn view(&self) -> ListenerSettings {
        ListenerSettings {
            reuse: self.reuse,
            tcp: self.tcp,
            buffers: self.buffers,
            backlog: self.backlog,
            nonblocking: self.nonblocking,
        }
    }
}

impl ListenerSettings {
    /// The options of a listener of the given family, in the order in which
    /// they are set: those of reuse, those of TCP, those of the buffers.
    pub open spec fn option_seq(self, family: i32) -> Seq<SockOpt> {
        self.reuse.option_seq() + self.tcp.option_seq(family == 1) + self.buffers.option_seq()
    }
}

impl<D: Domain> Default for ListenerBuilder<D> {
    fn default() -> (r: Self)
        ensures
            r@ == (ListenerSettings {
                reuse: ReuseConfig { addr: true, port: false },
                tcp: TcpConfig { nodelay: true, keepalive: None, linger: None },
                buffers: BufferConfig { recv: None, send: None },
                backlog: 128,
                nonblocking: false,
            }),
    {
        Self::new()
    }
}

impl<D: Domain> ListenerBuilder<D> {
    /// A builder with the defaults: address reuse, small writes sent at
    /// once, no buffer sizes, a backlog of 128, blocking.
    pub fn new() -> (r: Self)
        ensures
            r@ == (ListenerSettings {
                reuse: ReuseConfig { addr: true, port: false },
                tcp: TcpConfig { nodelay: true, keepalive: None, linger: None },
                buffers: BufferConfig { recv: None, send: None },
                backlog: 128,
                nonblocking: false,
            }),
    {
        Self {
            reuse: ReuseConfig::new(),
            tcp: TcpConfig::new(),
            buffers: BufferConfig::new(),
            backlog: 128,
            nonblocking: false,
            _marker: PhantomData,
        }
    }

    /// Set address reuse options.
    pub fn reuse(self, config: ReuseConfig) -> (r: Self)
        ensures
            r@ == (ListenerSettings { reuse: config, ..self@ }),
    {
        let mut r = self;
        r.reuse = config;
        r
    }

    /// Set TCP options (ignored for Unix sockets).
    pub fn tcp(self, config: TcpConfig) -> (r: Self)
        ensures
            r@ == (ListenerSettings { tcp: config, ..self@ }),
    {
        let mut r = self;
        r.tcp = config;
        r
    }

    /// Set buffer sizes.
    pub fn buffers(self, config: BufferConfig) -> (r: Self)
        ensures
            r@ == (ListenerSettings { buffers: config, ..self@ }),
    {
        let mut r = self;
        r.buffers = config;
        r
    }

    /// Set listen backlog. Default: 128.
    pub fn backlog(self, backlog: i32) -> (r: Self)
        ensures
            r@ == (ListenerSettings { backlog, ..self@ }),
    {
        let mut r = self;
        r.backlog = backlog;
        r
    }

    /// Set non-blocking mode.
    pub fn nonblocking(self, enable: bool) -> (r: Self)
        ensures
            r@ == (ListenerSettings { nonblocking: enable, ..self@ }),
    {
        let mut r = self;
        r.nonblocking = enable;
        r
    }

    /// Turns address reuse on or off.
    pub fn reuse_addr(self, enable: bool) -> (r: Self)
        ensures
            r@ == (ListenerSettings {
                reuse: ReuseConfig { addr: enable, ..self@.reuse },
                ..self@
            }),
    {
        let mut r = self;
        r.reuse.addr = enable;
        r
    }

    /// Turns port reuse on or off.
    pub fn reuse_port(self, enable: bool) -> (r: Self)
        ensures
            r@ == (ListenerSettings {
                reuse: ReuseConfig { port: enable, ..self@.reuse },
                ..self@
            }),
    {
        let mut r = self;
        r.reuse.port = enable;
        r
    }

    /// Turns the sending of small writes at once on or off.
    pub fn tcp_nodelay(self, enable: bool) -> (r: Self)
        ensures
            r@ == (ListenerSettings { tcp: TcpConfig { nodelay: enable, ..self@.tcp }, ..self@ }),
    {
        let mut r = self;
        r.tcp.nodelay = enable;
        r
    }

    /// Plans binding and listening: the steps to take on the new socket
    /// before it is bound and made to listen.
    pub fn bind(&self) -> (plan: ListenPlan)
        ensures
            plan.options@ == self@.option_seq(D::family()),
            plan.nonblocking == self@.nonblocking,
            plan.backlog == self@.backlog,
    {
        let is_unix = D::raw() == sys::af_unix();
        let mut options: Vec<SockOpt> = Vec::new();
        self.reuse.apply(&mut options);
        self.tcp.apply(&mut options, is_unix);
        self.buffers.apply(&mut options);
        ListenPlan { options, nonblocking: self.nonblocking, backlog: self.backlog }
    }
}

/// What a connector builder holds.
pub struct ConnectorSettings {
    pub tcp: TcpConfig,
    pub buffers: BufferConfig,
}

impl ConnectorSettings {
    /// The options of a connecting socket of the given family, in the order
    /// in which they are set: those of TCP, then those of the buffers.
    pub open spec fn option_seq(self, family: i32) -> Seq<SockOpt> {
        self.tcp.option_seq(family == 1) + self.buffers.option_seq()
    }
}

/// Builder for stream connections.
pub struct ConnectorBuilder<D: Domain> {
    tcp: TcpConfig,
    buffers: BufferConfig,
    _marker: PhantomData<D>,
}

impl<D: Domain> View for ConnectorBuilder<D> {
    type V = ConnectorSettings;

    closed spec fn view(&self) -> ConnectorSettings {
        ConnectorSettings { tcp: self.tcp, buffers: self.buffers }
    }
}

impl<D: Domain> Default for ConnectorBuilder<D> {
    fn default() -> (r: Self)
        ensures
            r@ == (ConnectorSettings {
                tcp: TcpConfig { nodelay: true, keepalive: None, linger: None },
                buffers: BufferConfig { recv: None, send: None },
            }),
    {
        Self::new()
    }
}

impl<D: Domain> ConnectorBuilder<D> {
    /// A builder with the defaults: small writes sent at once, no buffer
    /// sizes.
    pub fn new() -> (r: Self)
        ensures
            r@ == (ConnectorSettings {
                tcp: TcpConfig { nodelay: true, keepalive: None, linger: None },
                buffers: BufferConfig { recv: None, send: None },
            }),
    {
        Self { tcp: TcpConfig::new(), buffers: BufferConfig::new(), _marker: PhantomData }
    }

    /// Set TCP options.
    pub fn tcp(self, config: TcpConfig) -> (r: Self)
        ensures
            r@ == (ConnectorSettings { tcp: config, ..self@ }),
    {
        let mut r = self;
        r.tcp = config;
        r
    }

    /// Set buffer sizes.
    pub fn buffers(self, config: BufferConfig) -> (r: Self)
        ensures
            r@ == (ConnectorSettings { buffers: config, ..self@ }),
    {
        let mut r = self;
        r.buffers = config;
        r
    }

    /// Turns the sending of small writes at once on or off.
    pub fn tcp_nodelay(self, enable: bool) -> (r: Self)
        ensures
            r@ == (ConnectorSettings { tcp: TcpConfig { nodelay: enable, ..self@.tcp }, ..self@ }),
    {
        let mut r = self;
        r.tcp.nodelay = enable;
        r
    }

    /// Plans connecting: the options to set on the new socket, in order,
    /// before it connects.
    pub fn connect(&self) -> (options: Vec<SockOpt>)
        ensures
            options@ == self@.option_seq(D::family()),
    {
        let is_unix = D::raw() == sys::af_unix();
        let mut options: Vec<SockOpt> = Vec::new();
        self.tcp.apply(&mut options, is_unix);
        self.buffers.apply(&mut options);
        options
    }
}

/// What a datagram builder holds.
pub struct DatagramSettings {
    pub reuse: ReuseConfig,
    pub buffers: BufferConfig,
}

impl DatagramSettings {
    /// The options of a datagram socket, in the order in which they are
    /// set: those of reuse, then those of the buffers.
    pub open spec fn option_seq(self) -> Seq<SockOpt> {
        self.reuse.option_seq() + self.buffers.option_seq()
    }
}

/// Builder for datagram sockets.
pub struct DatagramBuilder<D: Domain> {
    reuse: ReuseConfig,
    buffers: BufferConfig,
    _marker: PhantomData<D>,
}

impl<D: Domain> View for DatagramBuilder<D> {
    type V = DatagramSettings;

    closed spec fn view(&self) -> DatagramSettings {
        DatagramSettings { reuse: self.reuse, buffers: self.buffers }
    }
}

impl<D: Domain> Default for DatagramBuilder<D> {
    fn default() -> (r: Self)
        ensures
            r@ == (DatagramSettings {
                reuse: ReuseConfig { addr: false, port: false },
                buffers: BufferConfig { recv: None, send: None },
            }),
    {
        Self::new()
    }
}

impl<D: Domain> DatagramBuilder<D> {
    /// A builder with the defaults: no reuse, no buffer sizes.
    pub fn new() -> (r: Self)
        ensures
            r@ == (DatagramSettings {
                reuse: ReuseConfig { addr: false, port: false },
                buffers: BufferConfig { recv: None, send: None },
            }),
    {
        Self {
            reuse: ReuseConfig { addr: false, port: false },
            buffers: BufferConfig::new(),
            _marker: PhantomData,
        }
    }

    /// Set address reuse options.
    pub fn reuse(self, config: ReuseConfig) -> (r: Self)
        ensures
            r@ == (DatagramSettings { reuse: config, ..self@ }),
    {
        let mut r = self;
        r.reuse = config;
        r
    }

    /// Set buffer sizes.
    pub fn buffers(self, config: BufferConfig) -> (r: Self)
        ensures
            r@ == (DatagramSettings { buffers: config, ..self@ }),
    {
        let mut r = self;
        r.buffers = config;
        r
    }

    /// Turns address reuse on or off.
    pub fn reuse_addr(self, enable: bool) -> (r: Self)
        ensures
            r@ == (DatagramSettings {
                reuse: ReuseConfig { addr: enable, ..self@.reuse },
                ..self@
            }),
    {
        let mut r = self;
        r.reuse.addr = enable;
        r
    }

    /// Turns port reuse on or off.
    pub fn reuse_port(self, enable: bool) -> (r: Self)
        ensures
            r@ == (DatagramSettings {
                reuse: ReuseConfig { port: enable, ..self@.reuse },
                ..self@
            }),
    {
        let mut r = self;
        r.reuse.port = enable;
        r
    }

    /// Plans binding: the options to set on the new socket, in order,
    /// before it is bound.
    pub fn bind(&self) -> (options: Vec<SockOpt>)
        ensures
            options@ == self@.option_seq(),
    {
        let mut options: Vec<SockOpt> = Vec::new();
        self.reuse.apply(&mut options);
        self.buffers.apply(&mut options);
        options
    }
}

} // verus!
