use wiz_term::pty::relay::{read_output, RelayStep, READ_CHUNK_SIZE};
use wiz_term::pty::session::{TerminalExit, TerminalOutput};

fn relay_all(id: &str, data: &[u8], chunk: usize) -> (Vec<u8>, usize, usize) {
    relay_until(id, data, chunk, false)
}

fn relay_until(id: &str, data: &[u8], chunk: usize, fails: bool) -> (Vec<u8>, usize, usize) {
    let mut forwarded = Vec::new();
    let mut outputs = 0;
    let mut exits = 0;
    let mut at = 0;
    loop {
        let end = usize::min(at + chunk, data.len());
        let read = if fails && at == data.len() { None } else { Some(&data[at..end]) };
        match read_output(id, read) {
            RelayStep::Forward(output) => {
                assert_eq!(output.session_id, id);
                forwarded.extend_from_slice(&output.data);
                outputs += 1;
            }
            RelayStep::Finish(exit) => {
                assert_eq!(exit, TerminalExit { session_id: id.to_string(), exit_code: None });
                exits += 1;
                break;
            }
        }
        at = end;
    }
    (forwarded, outputs, exits)
}

fn pattern(n: usize) -> Vec<u8> {
    (0..n).map(|i| (i * 31 % 251) as u8).collect()
}

#[test]
fn a_chunk_is_handed_on_unchanged() {
    let step = read_output("s", Some(&[0u8, 255, 10, 27][..]));
    assert_eq!(
        step,
        RelayStep::Forward(TerminalOutput { session_id: "s".to_string(), data: vec![0, 255, 10, 27] })
    );
}

#[test]
fn end_of_stream_and_failure_end_the_relay() {
    let exit = RelayStep::Finish(TerminalExit { session_id: "s".to_string(), exit_code: None });
    assert_eq!(read_output("s", Some(&[][..])), exit);
    assert_eq!(read_output("s", None), exit);
}

#[test]
fn bytes_survive_chunk_boundaries() {
    assert_eq!(READ_CHUNK_SIZE, 4096);
    for n in [0usize, 1, 4095, 4096, 4097, 8191, 8192, 8193, 3 * 4096, 20000] {
        let data = pattern(n);
        let (forwarded, outputs, exits) = relay_all("s", &data, READ_CHUNK_SIZE);
        assert_eq!(forwarded, data, "{} bytes", n);
        assert_eq!(outputs, (n + 4095) / 4096);
        assert_eq!(exits, 1);
    }
}

#[test]
fn bytes_survive_any_chunking() {
    let data = pattern(10000);
    for chunk in [1usize, 2, 7, 100, 4096, 9999, 10000, 20000] {
        let (forwarded, _, exits) = relay_all("s", &data, chunk);
        assert_eq!(forwarded, data, "chunks of {}", chunk);
        assert_eq!(exits, 1);
    }
}

#[test]
fn bytes_survive_when_the_last_read_fails() {
    for n in [0usize, 1, 4096, 4097, 8192, 10000] {
        let data = pattern(n);
        let (forwarded, outputs, exits) = relay_until("s", &data, READ_CHUNK_SIZE, true);
        assert_eq!(forwarded, data, "{} bytes", n);
        assert_eq!(outputs, (n + 4095) / 4096);
        assert_eq!(exits, 1);
    }
}
