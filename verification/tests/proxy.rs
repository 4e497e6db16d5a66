use akari::proxy::Pipe;

#[test]
fn bytes_arrive_in_order() {
    let mut to_guest = Pipe::new(64);
    let mut to_host = Pipe::new(64);
    assert_eq!(to_guest.push(b"HEL"), 3);
    assert_eq!(to_guest.push(b"LO"), 2);
    assert_eq!(to_host.push(b"WORLD"), 5);
    assert_eq!(to_guest.pop(64), b"HELLO".to_vec());
    assert_eq!(to_host.pop(64), b"WORLD".to_vec());
    assert!(to_guest.is_empty());
    assert!(to_host.is_empty());
}

#[test]
fn pop_hands_out_the_oldest_first() {
    let mut pipe = Pipe::new(16);
    pipe.push(b"abcdef");
    assert_eq!(pipe.pop(2), b"ab".to_vec());
    pipe.push(b"gh");
    assert_eq!(pipe.pop(0), Vec::<u8>::new());
    assert_eq!(pipe.pop(3), b"cde".to_vec());
    assert_eq!(pipe.len(), 3);
    assert_eq!(pipe.pop(100), b"fgh".to_vec());
    assert_eq!(pipe.pop(100), Vec::<u8>::new());
}

#[test]
fn full_pipe_takes_no_more() {
    let mut pipe = Pipe::new(4);
    assert_eq!(pipe.space(), 4);
    assert_eq!(pipe.push(b"abcdef"), 4);
    assert_eq!(pipe.space(), 0);
    assert_eq!(pipe.push(b"ef"), 0);
    assert_eq!(pipe.len(), 4);
    assert_eq!(pipe.pop(1), b"a".to_vec());
    assert_eq!(pipe.push(b"ef"), 1);
    assert_eq!(pipe.pop(10), b"bcde".to_vec());
    let mut none = Pipe::new(0);
    assert_eq!(none.push(b"x"), 0);
    assert!(none.is_empty());
}

#[test]
fn copy_through_a_small_pipe_keeps_the_order() {
    let data: Vec<u8> = (0..=255u8).cycle().take(1000).collect();
    let mut pipe = Pipe::new(7);
    let mut sent = 0;
    let mut out = Vec::new();
    while out.len() < data.len() {
        sent += pipe.push(&data[sent..]);
        out.extend_from_slice(&pipe.pop(3));
    }
    assert_eq!(out, data);
}
