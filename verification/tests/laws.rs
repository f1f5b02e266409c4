use tmux_gateway_core::buffers::{parse_buffer_line, parse_list_buffers_output};
use tmux_gateway_core::capture_pane::normalize_pane_content;
use tmux_gateway_core::environment::{parse_env_line, parse_session_env_line, EnvVar, TmuxEnvVar};
use tmux_gateway_core::error::TmuxError;
use tmux_gateway_core::pagination::{paginate, Pagination};
use tmux_gateway_core::show_messages::{parse_message_line, TmuxMessage};

#[test]
fn normalizing_twice_is_normalizing_once() {
    for raw in ["hello  \r\nworld\t\n\n \n", "", "\n\n", "a\n\nb  \n", "x\r"] {
        let once = normalize_pane_content(raw);
        assert_eq!(normalize_pane_content(&once), once);
    }
}

#[test]
fn pages_tile_the_list() {
    let all: Vec<i32> = (1..=7).collect();
    for offset in 0..9usize {
        for limit in 0..9usize {
            let first = paginate(all.clone(), &Pagination { offset, limit: Some(limit) });
            let rest = paginate(all.clone(), &Pagination { offset: offset + limit, limit: None });
            let from = paginate(all.clone(), &Pagination { offset, limit: None });
            let mut joined = first.items.clone();
            joined.extend(rest.items);
            assert_eq!(joined, from.items);
            assert_eq!(first.has_more, offset + first.items.len() < all.len());
        }
    }
}

#[test]
fn env_var_display_reads_back() {
    let v = EnvVar { name: "PATH".to_string(), value: "/bin=/usr/bin".to_string() };
    assert_eq!(parse_env_line(&v.to_string()), Some(v));
}

#[test]
fn session_env_var_display_reads_back() {
    let set = TmuxEnvVar { name: "EDITOR".to_string(), value: Some("vim".to_string()) };
    assert_eq!(parse_session_env_line(&set.to_string()), Some(set));
    let unset = TmuxEnvVar { name: "GONE".to_string(), value: None };
    assert_eq!(parse_session_env_line(&unset.to_string()), Some(unset));
}

#[test]
fn message_display_reads_back() {
    let m = TmuxMessage { time: "14:07".to_string(), message: "a: b: c".to_string() };
    assert_eq!(parse_message_line(&m.to_string()).unwrap(), m);
}

#[test]
fn stderr_classification_ignores_case() {
    let a = TmuxError::from_stderr("c", "can't find window: w", "t");
    let b = TmuxError::from_stderr("c", "CAN'T FIND WINDOW: W", "t");
    assert_eq!(a, b);
    assert_eq!(a, TmuxError::WindowNotFound("t".to_string()));
}

#[test]
fn not_running_wins_over_everything() {
    let e = TmuxError::from_stderr("c", "duplicate session; pane not found; No Server Running", "t");
    assert_eq!(e, TmuxError::TmuxNotRunning);
}

#[test]
fn normalized_content_has_no_trailing_whitespace() {
    for raw in ["a \t\nb  \r\n\n  \n", "  x\u{3000}\n", ""] {
        let r = normalize_pane_content(raw);
        assert_eq!(r, r.trim_end());
        assert!(r.lines().all(|l| l == l.trim_end()));
    }
}

#[test]
fn list_buffers_parse_line_by_line() {
    let s = "buffer0\t100\n\nbuffer1\t200\n";
    let v = parse_list_buffers_output(s).unwrap();
    assert_eq!(v, vec![parse_buffer_line("buffer0\t100").unwrap(), parse_buffer_line("buffer1\t200").unwrap()]);
    assert!(parse_list_buffers_output("").unwrap().is_empty());
    assert_eq!(
        parse_list_buffers_output("a\t1\nbad\nc\tx\n").unwrap_err(),
        parse_buffer_line("bad").unwrap_err()
    );
}
