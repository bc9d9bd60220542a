use std::cell::Cell;
use std::rc::Rc;

use civet::config::Config;
use civet::lifecycle::Listeners;
use civet::lifecycle::Server;
use civet::lifecycle::StartError;

fn cfg(port: u16) -> Config {
    Config::new().port(port).threads(1)
}

#[test]
fn smoke() {
    let mut engine = Listeners::new();
    Server::start(&mut engine, &cfg(13038), ()).unwrap();
}

#[test]
fn dupe_port() {
    let mut engine = Listeners::new();
    let s1 = Server::start(&mut engine, &cfg(13039), ());
    assert!(s1.is_ok());
    let s2 = Server::start(&mut engine, &cfg(13039), ());
    assert!(s2.is_err());
}

#[test]
fn second_start_reports_the_port_in_use() {
    let mut engine = Listeners::new();
    let first = Server::start(&mut engine, &cfg(8080), "first").unwrap();
    let second = Server::start(&mut engine, &cfg(8080), "second");
    assert!(matches!(second, Err(StartError::PortInUse)));
    // The first server is untouched and still holds its port.
    assert_eq!(first.port(), 8080);
    assert!(engine.bound(8080));
}

#[test]
fn different_ports_coexist() {
    let mut engine = Listeners::new();
    let s1 = Server::start(&mut engine, &cfg(9001), ());
    let s2 = Server::start(&mut engine, &cfg(9002), ());
    assert!(s1.is_ok());
    assert!(s2.is_ok());
}

struct Marker(Rc<Cell<u32>>);

impl Drop for Marker {
    fn drop(&mut self) {
        self.0.set(self.0.get() + 1);
    }
}

#[test]
fn drops_handler() {
    let drops = Rc::new(Cell::new(0));
    let mut engine = Listeners::new();
    let server = Server::start(&mut engine, &cfg(13040), Marker(drops.clone())).unwrap();
    assert_eq!(drops.get(), 0);
    // Stopping hands the handler back; releasing it runs its teardown once.
    let handler = server.stop(&mut engine);
    assert_eq!(drops.get(), 0);
    drop(handler);
    assert_eq!(drops.get(), 1);
}

#[test]
fn stop_frees_the_port() {
    let mut engine = Listeners::new();
    let server = Server::start(&mut engine, &cfg(13041), ()).unwrap();
    assert!(engine.bound(13041));
    server.stop(&mut engine);
    assert!(!engine.bound(13041));
    // A new server can bind the freed port.
    assert!(Server::start(&mut engine, &cfg(13041), ()).is_ok());
}

#[test]
fn config_defaults() {
    let c = Config::default();
    assert_eq!(c.port, 8888);
    assert_eq!(c.threads, 50);
    let c = Config::new();
    assert_eq!(c.port, 8888);
    assert_eq!(c.threads, 50);
}

#[test]
fn config_options_list() {
    let opts = Config::new().port(8080).threads(4).options();
    assert_eq!(opts.len(), 2);
    assert_eq!(opts[0].0, b"listening_ports".to_vec());
    assert_eq!(opts[0].1, b"8080".to_vec());
    assert_eq!(opts[1].0, b"num_threads".to_vec());
    assert_eq!(opts[1].1, b"4".to_vec());
}
