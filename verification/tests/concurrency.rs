use flyg::simconnect::connection::SimConnect;
use flyg::simconnect::host::HostCall;

/// The connection state together with the host it talks to, as they sit
/// behind one lock. The host notes whether the session was released and
/// whether a call came in after that.
struct Guarded {
    connection: SimConnect,
    released: bool,
    calls_after_release: usize,
}

impl Guarded {
    fn perform(&mut self, call: &HostCall) -> i32 {
        if self.released {
            self.calls_after_release += 1;
            return -1;
        }
        if let HostCall::Close { .. } = call {
            self.released = true;
        }
        0
    }

    fn is_connected(&mut self) -> bool {
        let probe = self.connection.probe_call().map(|call| self.perform(&call));
        self.connection.is_connected(probe)
    }

    fn close(&mut self) {
        if let Some(call) = self.connection.close() {
            let _ = self.perform(&call);
        }
    }
}

/// Under the lock every operation runs as a whole, so that what two threads
/// do comes down to one of the orders in which their operations can follow
/// each other. Each bit of `schedule` picks who goes next: the poller with
/// a liveness check, or the command issuer with a close.
fn run(schedule: u32, steps: u32) {
    let mut connection = SimConnect::new();
    assert_eq!(connection.connect(0, 0xabc), Ok(()));
    let mut guarded = Guarded { connection, released: false, calls_after_release: 0 };
    let mut closed = false;
    for step in 0..steps {
        if schedule >> step & 1 == 1 {
            guarded.close();
            closed = true;
            assert!(guarded.released);
        } else {
            let connected = guarded.is_connected();
            assert_eq!(connected, !closed);
        }
        assert_eq!(guarded.calls_after_release, 0);
    }
}

#[test]
fn no_probe_reaches_the_host_after_close_in_any_interleaving() {
    let steps = 10;
    for schedule in 0..(1u32 << steps) {
        run(schedule, steps);
    }
}
