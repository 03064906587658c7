use media_stream::fetch_loop::backoff_delay_ms;
use media_stream::fetch_loop::Action;
use media_stream::fetch_loop::Event;
use media_stream::fetch_loop::FetchState;
use media_stream::fetch_loop::PlaybackSession;
use media_stream::fetch_loop::SessionError;
use media_stream::fetch_loop::BASE_BACKOFF_MS;
use media_stream::fetch_loop::DEFAULT_CHUNK_SIZE;
use media_stream::fetch_loop::MAX_ATTEMPTS;
use media_stream::segment::FetchError;
use media_stream::segment::Segment;
use media_stream::segment::SegmentRequest;
use media_stream::sink::AppendOutcome;
use media_stream::sink::BufferRange;

fn session(chunk_size: u32) -> PlaybackSession {
    PlaybackSession::with_chunk_size("clip".to_string(), chunk_size).unwrap()
}

fn segment(start_offset: u64, length: u32, is_final: bool) -> Segment {
    Segment { bytes: vec![0xAB; length as usize], start_offset, length, is_final }
}

fn fetch(ticket: u64, offset: u64, max_length: u32) -> Action {
    Action::Fetch { ticket, offset, max_length, delay_ms: 0 }
}

fn fetched(ticket: u64, seg: Segment) -> Event {
    Event::Fetched { ticket, result: Ok(seg) }
}

fn failed(ticket: u64, error: FetchError) -> Event {
    Event::Fetched { ticket, result: Err(error) }
}

/// A session that holds the segment 0..10 and waits for the sink.
fn holding() -> PlaybackSession {
    let mut s = session(10);
    assert_eq!(s.step(Event::Start), fetch(1, 0, 10));
    assert_eq!(s.step(fetched(1, segment(0, 10, false))), Action::AwaitSink);
    s
}

#[test]
fn new_session_is_idle_at_the_start() {
    let s = PlaybackSession::new("clip".to_string());
    assert_eq!(s.state(), FetchState::Idle);
    assert_eq!(s.fetch_offset(), 0);
    assert_eq!(s.identifier(), "clip");
    assert_eq!(s.chunk_size(), DEFAULT_CHUNK_SIZE);
    assert_eq!(s.chunk_size(), 1024 * 1024);
    assert_eq!(s.ticket(), 0);
    assert_eq!(s.attempts(), 0);
    assert_eq!(s.error(), None);
    assert_eq!(s.pending(), None);
    assert_eq!(s.request(), None);
    assert_eq!(s.duration(), 0);
    assert_eq!(s.current_time(), 0);
}

#[test]
fn chunk_size_must_be_positive() {
    assert!(PlaybackSession::with_chunk_size("clip".to_string(), 0).is_none());
    let s = PlaybackSession::with_chunk_size("clip".to_string(), 1).unwrap();
    assert_eq!(s.chunk_size(), 1);
    assert_eq!(s.state(), FetchState::Idle);
}

#[test]
fn start_issues_the_first_request() {
    let mut s = session(10);
    assert_eq!(s.step(Event::Start), fetch(1, 0, 10));
    assert_eq!(s.state(), FetchState::Requesting);
    assert_eq!(s.attempts(), 1);
    assert_eq!(
        s.request(),
        Some(SegmentRequest { identifier: "clip".to_string(), offset: 0, max_length: 10 })
    );
}

#[test]
fn start_is_ignored_once_under_way() {
    let mut s = session(10);
    s.step(Event::Start);
    assert_eq!(s.step(Event::Start), Action::Wait);
    assert_eq!(s.state(), FetchState::Requesting);
    assert_eq!(s.ticket(), 1);
}

#[test]
fn idle_session_ignores_everything_but_start() {
    let mut s = session(10);
    assert_eq!(s.step(Event::Seek(50)), Action::Wait);
    assert_eq!(s.step(Event::SinkReady), Action::Wait);
    assert_eq!(s.step(Event::Appended(AppendOutcome::Ready)), Action::Wait);
    assert_eq!(s.step(fetched(0, segment(0, 10, false))), Action::Wait);
    assert_eq!(s.step(Event::Stop), Action::Wait);
    assert_eq!(s.state(), FetchState::Idle);
    assert_eq!(s.fetch_offset(), 0);
}

#[test]
fn one_full_cycle_advances_the_cursor() {
    let mut s = session(10);
    assert_eq!(s.step(Event::Start), fetch(1, 0, 10));
    assert_eq!(s.step(fetched(1, segment(0, 10, false))), Action::AwaitSink);
    assert_eq!(s.state(), FetchState::AwaitingSinkReady);
    assert_eq!(s.fetch_offset(), 0);
    assert_eq!(s.pending(), Some(&segment(0, 10, false)));
    assert_eq!(s.step(Event::SinkReady), Action::Append { start_offset: 0, length: 10 });
    assert_eq!(s.state(), FetchState::Appending);
    assert_eq!(s.fetch_offset(), 0);
    assert_eq!(s.step(Event::Appended(AppendOutcome::Ready)), fetch(2, 10, 10));
    assert_eq!(s.state(), FetchState::Requesting);
    assert_eq!(s.fetch_offset(), 10);
    assert_eq!(s.pending(), None);
}

#[test]
fn final_segment_completes_the_session() {
    let mut s = session(10);
    s.step(Event::Start);
    assert_eq!(s.step(fetched(1, segment(0, 4, true))), Action::AwaitSink);
    assert_eq!(s.step(Event::SinkReady), Action::Append { start_offset: 0, length: 4 });
    assert_eq!(s.step(Event::Appended(AppendOutcome::Ready)), Action::Finished);
    assert_eq!(s.state(), FetchState::Completed);
    assert_eq!(s.fetch_offset(), 4);
    assert_eq!(s.pending(), None);
    assert_eq!(s.request(), None);
}

#[test]
fn empty_final_segment_completes_the_session() {
    let mut s = session(10);
    s.step(Event::Start);
    assert_eq!(s.step(fetched(1, segment(0, 0, true))), Action::AwaitSink);
    assert_eq!(s.step(Event::SinkReady), Action::Append { start_offset: 0, length: 0 });
    assert_eq!(s.step(Event::Appended(AppendOutcome::Ready)), Action::Finished);
    assert_eq!(s.state(), FetchState::Completed);
    assert_eq!(s.fetch_offset(), 0);
}

#[test]
fn completed_session_takes_no_further_action() {
    let mut s = session(10);
    s.step(Event::Start);
    s.step(fetched(1, segment(0, 4, true)));
    s.step(Event::SinkReady);
    s.step(Event::Appended(AppendOutcome::Ready));
    assert_eq!(s.step(Event::Start), Action::Wait);
    assert_eq!(s.step(Event::Seek(0)), Action::Wait);
    assert_eq!(s.step(Event::SinkReady), Action::Wait);
    assert_eq!(s.step(Event::Appended(AppendOutcome::Ready)), Action::Wait);
    assert_eq!(s.step(fetched(1, segment(4, 4, true))), Action::Wait);
    assert_eq!(s.state(), FetchState::Completed);
    assert_eq!(s.fetch_offset(), 4);
}

#[test]
fn not_found_aborts_without_retry() {
    let mut s = session(10);
    s.step(Event::Start);
    assert_eq!(s.step(failed(1, FetchError::NotFound)), Action::Report(SessionError::NotFound));
    assert_eq!(s.state(), FetchState::Aborted);
    assert_eq!(s.error(), Some(SessionError::NotFound));
    assert_eq!(s.ticket(), 1);
    assert_eq!(s.request(), None);
}

#[test]
fn io_error_is_retried_with_growing_pauses() {
    let mut s = session(10);
    assert_eq!(s.step(Event::Start), fetch(1, 0, 10));
    assert_eq!(
        s.step(failed(1, FetchError::IoError)),
        Action::Fetch { ticket: 2, offset: 0, max_length: 10, delay_ms: 250 }
    );
    assert_eq!(s.state(), FetchState::Requesting);
    assert_eq!(s.attempts(), 2);
    assert_eq!(
        s.step(failed(2, FetchError::IoError)),
        Action::Fetch { ticket: 3, offset: 0, max_length: 10, delay_ms: 500 }
    );
    assert_eq!(s.attempts(), 3);
    assert_eq!(s.fetch_offset(), 0);
    assert_eq!(s.error(), None);
}

#[test]
fn third_io_error_aborts() {
    let mut s = session(10);
    s.step(Event::Start);
    s.step(failed(1, FetchError::IoError));
    s.step(failed(2, FetchError::IoError));
    assert_eq!(s.step(failed(3, FetchError::IoError)), Action::Report(SessionError::IoError));
    assert_eq!(s.state(), FetchState::Aborted);
    assert_eq!(s.error(), Some(SessionError::IoError));
    assert_eq!(MAX_ATTEMPTS, 3);
}

#[test]
fn success_after_two_io_errors_appends_once() {
    let mut s = session(10);
    s.step(Event::Start);
    s.step(failed(1, FetchError::IoError));
    s.step(failed(2, FetchError::IoError));
    assert_eq!(s.step(fetched(3, segment(0, 10, false))), Action::AwaitSink);
    assert_eq!(s.step(Event::SinkReady), Action::Append { start_offset: 0, length: 10 });
    assert_eq!(s.step(Event::Appended(AppendOutcome::Ready)), fetch(4, 10, 10));
    assert_eq!(s.attempts(), 1);
    // The answers to the two failed requests cannot come again and be taken.
    assert_eq!(s.step(fetched(1, segment(0, 10, false))), Action::Wait);
    assert_eq!(s.step(fetched(2, segment(0, 10, false))), Action::Wait);
    assert_eq!(s.step(fetched(3, segment(0, 10, false))), Action::Wait);
    assert_eq!(s.fetch_offset(), 10);
}

#[test]
fn attempts_start_anew_at_each_offset() {
    let mut s = session(10);
    s.step(Event::Start);
    s.step(failed(1, FetchError::IoError));
    s.step(failed(2, FetchError::IoError));
    s.step(fetched(3, segment(0, 10, false)));
    s.step(Event::SinkReady);
    s.step(Event::Appended(AppendOutcome::Ready));
    assert_eq!(
        s.step(failed(4, FetchError::IoError)),
        Action::Fetch { ticket: 5, offset: 10, max_length: 10, delay_ms: 250 }
    );
    assert_eq!(
        s.step(failed(5, FetchError::IoError)),
        Action::Fetch { ticket: 6, offset: 10, max_length: 10, delay_ms: 500 }
    );
    assert_eq!(s.step(failed(6, FetchError::IoError)), Action::Report(SessionError::IoError));
}

#[test]
fn backoff_doubles_from_the_base() {
    assert_eq!(BASE_BACKOFF_MS, 250);
    assert_eq!(backoff_delay_ms(0), 0);
    assert_eq!(backoff_delay_ms(1), 250);
    assert_eq!(backoff_delay_ms(2), 500);
    assert_eq!(backoff_delay_ms(3), 1000);
    assert_eq!(backoff_delay_ms(10), 128_000);
    assert_eq!(backoff_delay_ms(57), 250 << 56);
    assert_eq!(backoff_delay_ms(58), u64::MAX);
    assert_eq!(backoff_delay_ms(255), u64::MAX);
}

#[test]
fn segment_at_another_offset_counts_as_a_failed_read() {
    let mut s = session(10);
    s.step(Event::Start);
    assert_eq!(
        s.step(fetched(1, segment(5, 10, false))),
        Action::Fetch { ticket: 2, offset: 0, max_length: 10, delay_ms: 250 }
    );
    assert_eq!(s.pending(), None);
    assert_eq!(s.state(), FetchState::Requesting);
}

#[test]
fn unsound_segments_count_as_failed_reads() {
    // Longer than was asked for.
    let mut s = session(10);
    s.step(Event::Start);
    assert_eq!(
        s.step(fetched(1, segment(0, 11, false))),
        Action::Fetch { ticket: 2, offset: 0, max_length: 10, delay_ms: 250 }
    );
    // A length that is not that of the bytes.
    let odd = Segment { bytes: vec![1, 2, 3], start_offset: 0, length: 4, is_final: false };
    assert_eq!(
        s.step(fetched(2, odd)),
        Action::Fetch { ticket: 3, offset: 0, max_length: 10, delay_ms: 500 }
    );
    // Neither bytes nor the end of the file.
    assert_eq!(s.step(fetched(3, segment(0, 0, false))), Action::Report(SessionError::IoError));
    assert_eq!(s.state(), FetchState::Aborted);
}

#[test]
fn segment_that_would_pass_the_last_offset_is_refused() {
    let mut s = session(10);
    s.step(Event::Start);
    assert_eq!(s.step(Event::Seek(u64::MAX - 3)), fetch(2, u64::MAX - 3, 10));
    assert_eq!(
        s.step(fetched(2, segment(u64::MAX - 3, 4, false))),
        Action::Fetch { ticket: 3, offset: u64::MAX - 3, max_length: 10, delay_ms: 250 }
    );
    assert_eq!(s.step(fetched(3, segment(u64::MAX - 3, 3, true))), Action::AwaitSink);
    assert_eq!(
        s.step(Event::SinkReady),
        Action::Append { start_offset: u64::MAX - 3, length: 3 }
    );
    assert_eq!(s.step(Event::Appended(AppendOutcome::Ready)), Action::Finished);
    assert_eq!(s.fetch_offset(), u64::MAX);
}

#[test]
fn answer_with_another_ticket_is_dropped() {
    let mut s = session(10);
    s.step(Event::Start);
    assert_eq!(s.step(fetched(0, segment(0, 10, false))), Action::Wait);
    assert_eq!(s.step(fetched(2, segment(0, 10, false))), Action::Wait);
    assert_eq!(s.step(failed(7, FetchError::NotFound)), Action::Wait);
    assert_eq!(s.step(failed(7, FetchError::IoError)), Action::Wait);
    assert_eq!(s.state(), FetchState::Requesting);
    assert_eq!(s.attempts(), 1);
    assert_eq!(s.ticket(), 1);
}

#[test]
fn second_answer_to_one_request_is_dropped() {
    let mut s = holding();
    assert_eq!(s.step(fetched(1, segment(0, 10, false))), Action::Wait);
    assert_eq!(s.step(failed(1, FetchError::NotFound)), Action::Wait);
    assert_eq!(s.state(), FetchState::AwaitingSinkReady);
    assert_eq!(s.pending(), Some(&segment(0, 10, false)));
}

#[test]
fn busy_sink_makes_the_loop_wait_and_append_again() {
    let mut s = holding();
    assert_eq!(s.step(Event::SinkReady), Action::Append { start_offset: 0, length: 10 });
    assert_eq!(s.step(Event::Appended(AppendOutcome::Busy)), Action::AwaitSink);
    assert_eq!(s.state(), FetchState::AwaitingSinkReady);
    assert_eq!(s.fetch_offset(), 0);
    assert_eq!(s.pending(), Some(&segment(0, 10, false)));
    assert_eq!(s.error(), None);
    assert_eq!(s.step(Event::SinkReady), Action::Append { start_offset: 0, length: 10 });
    assert_eq!(s.step(Event::Appended(AppendOutcome::Ready)), fetch(2, 10, 10));
    assert_eq!(s.fetch_offset(), 10);
}

#[test]
fn append_error_aborts() {
    let mut s = holding();
    s.step(Event::SinkReady);
    assert_eq!(
        s.step(Event::Appended(AppendOutcome::AppendError)),
        Action::Report(SessionError::AppendError)
    );
    assert_eq!(s.state(), FetchState::Aborted);
    assert_eq!(s.error(), Some(SessionError::AppendError));
    assert_eq!(s.pending(), None);
    assert_eq!(s.fetch_offset(), 0);
}

#[test]
fn append_answer_without_an_append_is_ignored() {
    let mut s = holding();
    assert_eq!(s.step(Event::Appended(AppendOutcome::Ready)), Action::Wait);
    assert_eq!(s.step(Event::Appended(AppendOutcome::AppendError)), Action::Wait);
    assert_eq!(s.state(), FetchState::AwaitingSinkReady);
    assert_eq!(s.fetch_offset(), 0);
}

#[test]
fn sink_ready_without_a_segment_is_ignored() {
    let mut s = session(10);
    s.step(Event::Start);
    assert_eq!(s.step(Event::SinkReady), Action::Wait);
    assert_eq!(s.state(), FetchState::Requesting);
    let mut appending = holding();
    appending.step(Event::SinkReady);
    assert_eq!(appending.step(Event::SinkReady), Action::Wait);
    assert_eq!(appending.state(), FetchState::Appending);
}

#[test]
fn seek_while_requesting_drops_the_stale_answer() {
    let mut s = session(10);
    assert_eq!(s.step(Event::Start), fetch(1, 0, 10));
    assert_eq!(s.step(Event::Seek(500)), fetch(2, 500, 10));
    assert_eq!(s.fetch_offset(), 500);
    // The answer to the request from before the seek arrives.
    assert_eq!(s.step(fetched(1, segment(0, 10, false))), Action::Wait);
    assert_eq!(s.state(), FetchState::Requesting);
    assert_eq!(s.pending(), None);
    assert_eq!(s.fetch_offset(), 500);
    assert_eq!(s.step(fetched(2, segment(500, 10, false))), Action::AwaitSink);
    assert_eq!(s.step(Event::SinkReady), Action::Append { start_offset: 500, length: 10 });
    assert_eq!(s.step(Event::Appended(AppendOutcome::Ready)), fetch(3, 510, 10));
}

#[test]
fn stale_error_after_a_seek_does_not_abort() {
    let mut s = session(10);
    s.step(Event::Start);
    s.step(Event::Seek(500));
    assert_eq!(s.step(failed(1, FetchError::NotFound)), Action::Wait);
    assert_eq!(s.step(failed(1, FetchError::IoError)), Action::Wait);
    assert_eq!(s.state(), FetchState::Requesting);
    assert_eq!(s.attempts(), 1);
    assert_eq!(s.error(), None);
}

#[test]
fn seek_while_awaiting_the_sink_drops_the_held_segment() {
    let mut s = holding();
    assert_eq!(s.step(Event::Seek(70)), fetch(2, 70, 10));
    assert_eq!(s.pending(), None);
    assert_eq!(s.state(), FetchState::Requesting);
    // The sink becomes ready: there is nothing to append.
    assert_eq!(s.step(Event::SinkReady), Action::Wait);
    assert_eq!(s.step(fetched(2, segment(70, 10, false))), Action::AwaitSink);
    assert_eq!(s.step(Event::SinkReady), Action::Append { start_offset: 70, length: 10 });
}

#[test]
fn seek_while_appending_turns_to_the_target() {
    let mut s = holding();
    s.step(Event::SinkReady);
    assert_eq!(s.step(Event::Seek(30)), fetch(2, 30, 10));
    assert_eq!(s.fetch_offset(), 30);
    assert_eq!(s.pending(), None);
    // The answer to the append from before the seek moves nothing.
    assert_eq!(s.step(Event::Appended(AppendOutcome::Ready)), Action::Wait);
    assert_eq!(s.fetch_offset(), 30);
}

#[test]
fn seek_to_the_same_offset_still_takes_a_new_ticket() {
    let mut s = session(10);
    s.step(Event::Start);
    assert_eq!(s.step(Event::Seek(0)), fetch(2, 0, 10));
    assert_eq!(s.step(fetched(1, segment(0, 10, false))), Action::Wait);
    assert_eq!(s.step(fetched(2, segment(0, 10, false))), Action::AwaitSink);
}

#[test]
fn seek_revives_an_aborted_session() {
    let mut s = session(10);
    s.step(Event::Start);
    s.step(failed(1, FetchError::NotFound));
    assert_eq!(s.step(Event::Start), Action::Wait);
    assert_eq!(s.step(Event::SinkReady), Action::Wait);
    assert_eq!(s.state(), FetchState::Aborted);
    assert_eq!(s.step(Event::Seek(40)), fetch(2, 40, 10));
    assert_eq!(s.state(), FetchState::Requesting);
    assert_eq!(s.error(), None);
    assert_eq!(s.attempts(), 1);
    assert_eq!(s.fetch_offset(), 40);
}

#[test]
fn seek_resets_the_attempts() {
    let mut s = session(10);
    s.step(Event::Start);
    s.step(failed(1, FetchError::IoError));
    s.step(failed(2, FetchError::IoError));
    assert_eq!(s.attempts(), 3);
    assert_eq!(s.step(Event::Seek(20)), fetch(4, 20, 10));
    assert_eq!(s.attempts(), 1);
    assert_eq!(
        s.step(failed(4, FetchError::IoError)),
        Action::Fetch { ticket: 5, offset: 20, max_length: 10, delay_ms: 250 }
    );
}

#[test]
fn stop_returns_to_idle_from_every_state() {
    let mut requesting = session(10);
    requesting.step(Event::Start);
    assert_eq!(requesting.step(Event::Stop), Action::Wait);
    assert_eq!(requesting.state(), FetchState::Idle);

    let mut awaiting = holding();
    assert_eq!(awaiting.step(Event::Stop), Action::Wait);
    assert_eq!(awaiting.state(), FetchState::Idle);
    assert_eq!(awaiting.pending(), None);

    let mut aborted = session(10);
    aborted.step(Event::Start);
    aborted.step(failed(1, FetchError::NotFound));
    assert_eq!(aborted.step(Event::Stop), Action::Wait);
    assert_eq!(aborted.state(), FetchState::Idle);
    assert_eq!(aborted.error(), None);
}

#[test]
fn session_starts_over_after_stop() {
    let mut s = holding();
    s.step(Event::SinkReady);
    s.step(Event::Appended(AppendOutcome::Ready));
    assert_eq!(s.fetch_offset(), 10);
    s.step(Event::Stop);
    assert_eq!(s.fetch_offset(), 0);
    assert_eq!(s.attempts(), 0);
    // The answer to the request from before the stop is dropped.
    assert_eq!(s.step(fetched(2, segment(10, 10, false))), Action::Wait);
    assert_eq!(s.step(Event::Start), fetch(3, 0, 10));
    assert_eq!(s.step(fetched(2, segment(0, 10, false))), Action::Wait);
    assert_eq!(s.step(fetched(3, segment(0, 10, false))), Action::AwaitSink);
}

#[test]
fn control_layer_fields_do_not_touch_the_loop() {
    let mut s = holding();
    s.set_duration(120_000);
    s.set_current_time(4_500);
    assert_eq!(s.duration(), 120_000);
    assert_eq!(s.current_time(), 4_500);
    assert_eq!(s.state(), FetchState::AwaitingSinkReady);
    assert_eq!(s.fetch_offset(), 0);
    assert_eq!(s.ticket(), 1);
    assert_eq!(s.pending(), Some(&segment(0, 10, false)));
    s.set_duration(-1);
    assert_eq!(s.duration(), -1);
}

#[test]
fn appends_between_seeks_are_contiguous() {
    let mut s = session(10);
    let mut action = s.step(Event::Start);
    let mut appended: Vec<(u64, u32)> = Vec::new();
    let lengths = [10u32, 10, 7, 10, 1, 10];
    let mut next = 0usize;
    while appended.len() < lengths.len() {
        action = match action {
            Action::Fetch { ticket, offset, .. } => {
                let seg = segment(offset, lengths[next], false);
                next += 1;
                s.step(fetched(ticket, seg))
            }
            Action::AwaitSink => s.step(Event::SinkReady),
            Action::Append { start_offset, length } => {
                appended.push((start_offset, length));
                s.step(Event::Appended(AppendOutcome::Ready))
            }
            other => panic!("unexpected action {:?}", other),
        };
    }
    assert_eq!(appended[0].0, 0);
    for i in 1..appended.len() {
        assert_eq!(appended[i].0, appended[i - 1].0 + appended[i - 1].1 as u64);
    }
    assert_eq!(s.fetch_offset(), 48);
}

#[test]
fn session_percentages_follow_its_times() {
    let mut s = session(10);
    let ranges = [BufferRange { start: 0, end: 30 }, BufferRange { start: 40, end: 60 }];
    assert_eq!(s.buffered_percent(&ranges), 0);
    assert_eq!(s.played_percent(), 0);
    s.set_duration(120);
    s.set_current_time(30);
    assert_eq!(s.buffered_percent(&ranges), 50);
    assert_eq!(s.played_percent(), 25);
    s.set_current_time(500);
    assert_eq!(s.played_percent(), 100);
    s.set_duration(-5);
    assert_eq!(s.buffered_percent(&ranges), 0);
    assert_eq!(s.played_percent(), 0);
}
