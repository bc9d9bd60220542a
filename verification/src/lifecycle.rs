//! The Server Lifecycle: one start call that binds a port and registers the
//! handler, one stop call that releases both.
//!
//! The engine owns the listening sockets; [`Listeners`] is the model of that
//! state — the set of ports with a live listener — against which the binding
//! rule is stated and proved: a port binds at most once at a time, so a
//! second start on a bound port fails and leaves the first server untouched.
//! A [`Server`] exclusively owns its registration: stopping consumes the
//! handle, frees the port, and hands the application handler back exactly
//! once; the handle's affine type makes a second stop impossible.

use vstd::prelude::*;

use crate::config::Config;

verus! {

/// The ports with a live listener. This stands for state the native engine
/// holds; the adapter's binding rule is stated over it.
pub struct Listeners {
    ports: Vec<u16>,
}

impl View for Listeners {
    type V = Seq<u16>;

    closed spec fn view(&self) -> Seq<u16> {
        self.ports@
    }
}

/// Whether a start on `port` can succeed against the listener table.
pub open spec fn can_bind(engine: Seq<u16>, port: u16) -> bool {
    !engine.contains(port)
}

impl Listeners {
    /// Each port holds at most one live listener.
    pub open spec fn wf(&self) -> bool {
        forall|i: int, j: int| 0 <= i < j < self@.len() ==> self@[i] != self@[j]
    }

    /// A table with no listener bound.
    pub fn new() -> (r: Listeners)
        ensures
            r@ == Seq::<u16>::empty(),
            r.wf(),
    {
        Listeners { ports: Vec::new() }
    }

    /// Whether `port` holds a live listener.
    pub fn bound(&self, port: u16) -> (r: bool)
        ensures
            r == self@.contains(port),
    {
        let mut i: usize = 0;
        while i < self.ports.len()
            invariant
                i <= self@.len(),
                forall|j: int| 0 <= j < i ==> self@[j] != port,
            decreases self@.len() - i,
        {
            if self.ports[i] == port {
                return true;
            }
            i += 1;
        }
        false
    }

    /// Binds `port`: fails exactly where a listener already holds it, and
    /// then changes nothing.
    fn bind(&mut self, port: u16) -> (r: bool)
        requires
            old(self).wf(),
        ensures
            final(self).wf(),
            r == can_bind(old(self)@, port),
            r ==> final(self)@ == old(self)@.push(port),
            !r ==> final(self)@ == old(self)@,
    {
        if self.bound(port) {
            false
        } else {
            self.ports.push(port);
            true
        }
    }

    /// Releases `port`: after the call no listener holds it.
    fn unbind(&mut self, port: u16)
        requires
            old(self).wf(),
        ensures
            final(self).wf(),
            final(self)@ == old(self)@.remove_value(port),
            !final(self)@.contains(port),
    {
        let ghost orig = self@;
        let mut i: usize = 0;
        while i < self.ports.len()
            invariant
                self@ == orig,
                orig == old(self)@,
                old(self).wf(),
                i <= self@.len(),
                forall|j: int| 0 <= j < i ==> self@[j] != port,
            decreases self@.len() - i,
        {
            if self.ports[i] == port {
                self.ports.remove(i);
                proof {
                    let iv = i as int;
                    orig.remove_ensures(iv);
                    orig.index_of_first_ensures(port);
                    assert(orig.contains(port)) by {
                        assert(orig[iv] == port);
                    }
                    assert(orig.index_of_first(port) == Some(iv));
                    assert(self@ == orig.remove(iv));
                    assert(self@ =~= orig.remove_value(port));
                    assert forall|j: int| 0 <= j < self@.len() implies self@[j] != port by {
                        if j < iv {
                            assert(orig.remove(iv)[j] == orig[j]);
                        } else {
                            assert(orig.remove(iv)[j] == orig[j + 1]);
                        }
                    }
                    assert forall|j: int, k: int| 0 <= j < k < self@.len() implies self@[j]
                        != self@[k] by {
                        if j < iv {
                            assert(orig.remove(iv)[j] == orig[j]);
                        } else {
                            assert(orig.remove(iv)[j] == orig[j + 1]);
                        }
                        if k < iv {
                            assert(orig.remove(iv)[k] == orig[k]);
                        } else {
                            assert(orig.remove(iv)[k] == orig[k + 1]);
                        }
                    }
                }
                return ;
            }
            i += 1;
        }
        proof {
            assert(!orig.contains(port));
            orig.index_of_first_ensures(port);
            assert(orig.remove_value(port) == orig);
        }
    }
}

/// Why a start call failed.
#[derive(Debug, Clone, Copy, PartialEq, Eq, Structural)]
pub enum StartError {
    /// The configured port already holds a live listener.
    PortInUse,
}

/// A running server: the exclusive owner of its engine registration. It
/// holds the application handler for the server's lifetime; the handler must
/// carry its own synchronization, for the engine's worker threads invoke it
/// concurrently.
pub struct Server<H> {
    port: u16,
    handler: H,
}

impl<H> Server<H> {
    /// The port this server listens on.
    pub closed spec fn spec_port(&self) -> u16 {
        self.port
    }

    /// The handler this server registered.
    pub closed spec fn spec_handler(&self) -> H {
        self.handler
    }

    /// Starts a server on the configured port, registering `handler` as the
    /// engine's universal callback. Port exclusivity: the start succeeds
    /// exactly where no listener holds the port yet; a second start on a
    /// bound port fails and the table — the first server with it — stays as
    /// it was.
    pub fn start(engine: &mut Listeners, config: &Config, handler: H) -> (r: Result<
        Server<H>,
        StartError,
    >)
        requires
            old(engine).wf(),
        ensures
            final(engine).wf(),
            r is Ok <==> can_bind(old(engine)@, config.port),
            r matches Ok(s) ==> {
                &&& s.spec_port() == config.port
                &&& s.spec_handler() == handler
                &&& final(engine)@ == old(engine)@.push(config.port)
            },
            r is Err ==> r == Err::<Server<H>, StartError>(StartError::PortInUse) && final(engine)@
                == old(engine)@,
    {
        if engine.bind(config.port) {
            Ok(Server { port: config.port, handler })
        } else {
            Err(StartError::PortInUse)
        }
    }

    /// The port this server holds.
    pub fn port(&self) -> (p: u16)
        ensures
            p == self.spec_port(),
    {
        self.port
    }

    /// Stops the server: issues the engine's one stop call, which frees the
    /// port, and hands the registered handler back — released exactly once,
    /// for the call consumes the handle.
    pub fn stop(self, engine: &mut Listeners) -> (h: H)
        requires
            old(engine).wf(),
        ensures
            final(engine).wf(),
            h == self.spec_handler(),
            final(engine)@ == old(engine)@.remove_value(self.spec_port()),
            !final(engine)@.contains(self.spec_port()),
    {
        let Server { port, handler } = self;
        engine.unbind(port);
        handler
    }
}

/// Port exclusivity: once a start has bound a port, no second start on that
/// port can succeed until it is released.
pub proof fn lemma_port_exclusive(engine: Seq<u16>, port: u16)
    requires
        can_bind(engine, port),
    ensures
        !can_bind(engine.push(port), port),
{
    assert(engine.push(port)[engine.len() as int] == port);
}

} // verus!
