use fieri::envelope::decode;
use fieri::stream::{EventStream, Frame};
use fieri::types::Completion;

#[test]
fn split_event_equals_whole_event() {
    let event = b"data: {\"choices\":[{\"text\":\"Hi\"}]}\n\n";
    for cut in 0..event.len() {
        let mut whole = EventStream::new();
        let frames_whole = whole.feed(event);

        let mut split = EventStream::new();
        let mut frames_split = split.feed(&event[..cut]);
        frames_split.extend(split.feed(&event[cut..]));

        assert_eq!(frames_whole, frames_split);
        assert_eq!(frames_whole.len(), 1);
        assert_eq!(
            frames_whole[0],
            Frame::Data(b"{\"choices\":[{\"text\":\"Hi\"}]}".to_vec())
        );
        assert_eq!(whole.is_closed(), split.is_closed());
    }
}

#[test]
fn two_complete_events_and_a_partial_third() {
    let mut s = EventStream::new();
    let frames = s.feed(b"data: {\"a\":1}\n\ndata: {\"b\":2}\n\ndata: {\"c\"");
    assert_eq!(frames.len(), 2);
    assert_eq!(frames[0], Frame::Data(b"{\"a\":1}".to_vec()));
    assert_eq!(frames[1], Frame::Data(b"{\"b\":2}".to_vec()));
    assert!(!s.is_closed());

    // The partial bytes were preserved: completing them yields the event.
    let frames = s.feed(b":3}\n\n");
    assert_eq!(frames.len(), 1);
    assert_eq!(frames[0], Frame::Data(b"{\"c\":3}".to_vec()));
}

#[test]
fn sentinel_ends_the_stream_for_good() {
    let mut s = EventStream::new();
    let frames = s.feed(b"data: {\"x\":1}\n\ndata: [DONE]\n\ndata: {\"y\":2}\n\n");
    assert_eq!(frames.len(), 1);
    assert!(s.is_closed());

    // Later bytes are never surfaced as events.
    let frames = s.feed(b"data: {\"z\":3}\n\n");
    assert!(frames.is_empty());
    assert!(s.is_closed());
}

#[test]
fn frame_without_marker_is_reported_not_hidden() {
    let mut s = EventStream::new();
    let frames = s.feed(b"noise without marker\n\ndata: {\"k\":1}\n\n");
    assert_eq!(frames.len(), 2);
    assert_eq!(frames[0], Frame::Malformed(b"noise without marker".to_vec()));
    assert_eq!(frames[1], Frame::Data(b"{\"k\":1}".to_vec()));
}

#[test]
fn three_chunk_streaming_scenario() {
    let mut s = EventStream::new();
    let mut texts: Vec<String> = Vec::new();

    let chunks: [&[u8]; 3] = [
        b"data: {\"choices\":[{\"text\":\"Hi\"}]}\n\n",
        b"data: {\"cho",
        b"ices\":[{\"text\":\"!\"}]}\n\ndata: [DONE]\n\n",
    ];
    for chunk in chunks {
        for frame in s.feed(chunk) {
            match frame {
                Frame::Data(payload) => {
                    let completion: Completion =
                        decode(&payload).expect("each event decodes as a completion");
                    texts.push(completion.choices[0].text.clone().unwrap());
                }
                Frame::Malformed(_) => panic!("no malformed frames in this stream"),
            }
        }
    }

    assert_eq!(texts, vec!["Hi", "!"]);
    assert!(s.is_closed());
}
