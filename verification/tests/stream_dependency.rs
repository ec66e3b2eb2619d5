use h2l::frame::{StreamDependency, StreamId};

#[test]
fn stream_dependency() {
    let samples = [
        (1, 0, false),
        (1, 0, true),
        (1, 255, false),
        (1, 255, true),
        (0x7fff_ffff, 0, false),
        (0x7fff_ffff, 0, true),
        (0x7fff_ffff, 255, false),
        (0x7fff_ffff, 255, true),
    ];
    for (i, w, x) in samples {
        let x1 = StreamDependency::new(StreamId(i), w, x);
        let mut buffer: Vec<u8> = Vec::with_capacity(64);
        x1.encode(&mut buffer);
        let x2 = StreamDependency::load(&buffer).unwrap();
        assert_eq!(x1, x2);
    }
}
