use base64::Engine;
use clipboard_image::format::{priority_order, ImageFormat};
use clipboard_image::image::ClipboardImage;
use clipboard_image::probe::ProbeOutcome;
use clipboard_image::session::{Request, Session, Step, UTILITY};

fn wrote(bytes: &[u8]) -> ProbeOutcome {
    ProbeOutcome::Exited { success: true, stdout: bytes.to_vec(), stderr: Vec::new() }
}

fn failed(stdout: &[u8], stderr: &[u8]) -> ProbeOutcome {
    ProbeOutcome::Exited { success: false, stdout: stdout.to_vec(), stderr: stderr.to_vec() }
}

fn not_started() -> ProbeOutcome {
    ProbeOutcome::NotStarted { reason: String::from("No such file or directory (os error 2)") }
}

/// Runs a whole reading against a stand-in for the utility, and returns
/// what it ended in together with the questions that were asked.
fn read(
    candidates: Vec<ImageFormat>,
    utility: impl Fn(Request) -> ProbeOutcome,
) -> (Result<Option<ClipboardImage>, String>, Vec<Request>) {
    let mut asked = Vec::new();
    let mut session = Session::begin(candidates);
    loop {
        let request = session.request();
        asked.push(request);
        let outcome = utility(request);
        assert!(session.accepts(&outcome));
        match session.answer(outcome) {
            Step::Ask(next) => session = next,
            Step::Done(result) => return (result, asked),
        }
    }
}

/// A utility that lists the given types and holds the given contents.
fn holding(
    listing: &'static [u8],
    contents: Vec<(ImageFormat, Vec<u8>)>,
) -> impl Fn(Request) -> ProbeOutcome {
    move |request| match request {
        Request::ListTypes => wrote(listing),
        Request::Content(format) => {
            match contents.iter().find(|(held, _)| *held == format) {
                Some((_, bytes)) => wrote(bytes),
                None => failed(b"", b"No suitable type of content copied\n"),
            }
        },
    }
}

fn image(mime_type: &str, data: &str) -> ClipboardImage {
    ClipboardImage { data: String::from(data), mime_type: String::from(mime_type) }
}

fn patterned(len: usize) -> Vec<u8> {
    (0..len).map(|at| ((at * 7 + 3) % 256) as u8).collect()
}

#[test]
fn the_utility_is_wl_paste() {
    assert_eq!(UTILITY, "wl-paste");
}

#[test]
fn the_list_of_types_is_asked_for_with_its_flag() {
    assert_eq!(Request::ListTypes.arguments(), vec!["--list-types"]);
}

#[test]
fn content_is_asked_for_by_mime_type() {
    assert_eq!(Request::Content(ImageFormat::Png).arguments(), vec!["--type", "image/png"]);
    assert_eq!(Request::Content(ImageFormat::Jpeg).arguments(), vec!["--type", "image/jpeg"]);
    assert_eq!(Request::Content(ImageFormat::Bmp).arguments(), vec!["--type", "image/bmp"]);
    assert_eq!(Request::Content(ImageFormat::Gif).arguments(), vec!["--type", "image/gif"]);
}

#[test]
fn a_session_begins_by_asking_for_the_list_of_types() {
    assert_eq!(Session::standard().request(), Request::ListTypes);
    assert_eq!(Session::begin(vec![ImageFormat::Gif]).request(), Request::ListTypes);
    assert_eq!(Session::begin(Vec::new()).request(), Request::ListTypes);
}

#[test]
fn after_the_list_the_first_candidate_is_asked_for() {
    match Session::standard().answer(wrote(b"text/plain\n")) {
        Step::Ask(session) => assert_eq!(session.request(), Request::Content(ImageFormat::Png)),
        Step::Done(result) => panic!("done too early: {:?}", result),
    }
}

#[test]
fn png_alone_is_returned() {
    let (result, _) =
        read(priority_order(), holding(b"image/png\n", vec![(ImageFormat::Png, b"\x89PNG\r\n\x1a\n".to_vec())]));
    assert_eq!(result, Ok(Some(image("image/png", "iVBORw0KGgo="))));
}

#[test]
fn jpeg_alone_is_returned() {
    let (result, _) = read(
        priority_order(),
        holding(b"image/jpeg\n", vec![(ImageFormat::Jpeg, vec![0xff, 0xd8, 0xff, 0xe0])]),
    );
    assert_eq!(result, Ok(Some(image("image/jpeg", "/9j/4A=="))));
}

#[test]
fn bmp_alone_is_returned() {
    let (result, _) =
        read(priority_order(), holding(b"image/bmp\n", vec![(ImageFormat::Bmp, b"BM".to_vec())]));
    assert_eq!(result, Ok(Some(image("image/bmp", "Qk0="))));
}

#[test]
fn gif_alone_is_returned() {
    let (result, _) =
        read(priority_order(), holding(b"image/gif\n", vec![(ImageFormat::Gif, b"GIF89a".to_vec())]));
    assert_eq!(result, Ok(Some(image("image/gif", "R0lGODlh"))));
}

#[test]
fn of_several_formats_the_most_preferred_is_returned() {
    let all = vec![
        (ImageFormat::Gif, b"GIF89a".to_vec()),
        (ImageFormat::Bmp, b"BM".to_vec()),
        (ImageFormat::Jpeg, vec![0xff, 0xd8, 0xff, 0xe0]),
        (ImageFormat::Png, b"\x89PNG\r\n\x1a\n".to_vec()),
    ];
    let (result, _) = read(priority_order(), holding(b"", all.clone()));
    assert_eq!(result, Ok(Some(image("image/png", "iVBORw0KGgo="))));
    let (result, _) = read(priority_order(), holding(b"", all[..3].to_vec()));
    assert_eq!(result, Ok(Some(image("image/jpeg", "/9j/4A=="))));
    let (result, _) = read(priority_order(), holding(b"", all[..2].to_vec()));
    assert_eq!(result, Ok(Some(image("image/bmp", "Qk0="))));
    let (result, _) = read(priority_order(), holding(b"", all[..1].to_vec()));
    assert_eq!(result, Ok(Some(image("image/gif", "R0lGODlh"))));
}

#[test]
fn the_listed_types_do_not_decide() {
    let contents = vec![(ImageFormat::Bmp, b"BM".to_vec()), (ImageFormat::Gif, b"GIF89a".to_vec())];
    let listings: [&'static [u8]; 4] =
        [b"", b"image/gif\n", b"text/plain\nimage/png\n", b"image/gif\nimage/bmp\n"];
    for listing in listings {
        let (result, _) = read(priority_order(), holding(listing, contents.clone()));
        assert_eq!(result, Ok(Some(image("image/bmp", "Qk0="))));
    }
    let (result, _) = read(priority_order(), |request| match request {
        Request::ListTypes => not_started(),
        Request::Content(ImageFormat::Bmp) => wrote(b"BM"),
        Request::Content(_) => wrote(b""),
    });
    assert_eq!(result, Ok(Some(image("image/bmp", "Qk0="))));
}

#[test]
fn jpeg_is_found_after_an_empty_png() {
    let jpeg = patterned(1024);
    let held = jpeg.clone();
    let (result, asked) = read(priority_order(), move |request| match request {
        Request::ListTypes => wrote(b"image/jpeg\ntext/plain\n"),
        Request::Content(ImageFormat::Png) => wrote(b""),
        Request::Content(ImageFormat::Jpeg) => wrote(&held),
        Request::Content(_) => failed(b"", b""),
    });
    let found = result.expect("no error").expect("an image");
    assert_eq!(found.mime_type, "image/jpeg");
    assert_eq!(found.data, base64::engine::general_purpose::STANDARD.encode(&jpeg));
    assert_eq!(found.data.len(), 1368);
    assert!(found.data.starts_with("AwoRGB8mLTQ7QklQV15lbHN6"));
    assert!(found.data.ends_with("5+71/A=="));
    assert_eq!(
        asked,
        vec![
            Request::ListTypes,
            Request::Content(ImageFormat::Png),
            Request::Content(ImageFormat::Jpeg),
        ]
    );
}

#[test]
fn empty_output_for_every_format_is_no_image() {
    let (result, asked) = read(priority_order(), |_| wrote(b""));
    assert_eq!(result, Ok(None));
    assert_eq!(asked.len(), 5);
}

#[test]
fn failure_for_every_format_is_no_image() {
    let (result, asked) = read(priority_order(), |request| match request {
        Request::ListTypes => wrote(b"text/plain\n"),
        Request::Content(_) => failed(b"", b"No suitable type of content copied\n"),
    });
    assert_eq!(result, Ok(None));
    assert_eq!(
        asked,
        vec![
            Request::ListTypes,
            Request::Content(ImageFormat::Png),
            Request::Content(ImageFormat::Jpeg),
            Request::Content(ImageFormat::Bmp),
            Request::Content(ImageFormat::Gif),
        ]
    );
}

#[test]
fn a_mix_of_failures_is_no_image() {
    let (result, _) = read(priority_order(), |request| match request {
        Request::ListTypes => failed(b"", b"Nothing is copied\n"),
        Request::Content(ImageFormat::Png) => wrote(b""),
        Request::Content(ImageFormat::Jpeg) => failed(b"", b""),
        Request::Content(ImageFormat::Bmp) => not_started(),
        Request::Content(ImageFormat::Gif) => failed(b"GIF89a", b"broken pipe"),
    });
    assert_eq!(result, Ok(None));
}

#[test]
fn a_utility_that_cannot_be_run_is_no_image() {
    let (result, asked) = read(priority_order(), |_| not_started());
    assert_eq!(result, Ok(None));
    assert_eq!(asked.len(), 5);
}

#[test]
fn output_of_a_failed_run_is_not_an_image() {
    let (result, _) = read(priority_order(), |request| match request {
        Request::Content(ImageFormat::Png) => failed(b"\x89PNG", b""),
        Request::Content(ImageFormat::Gif) => wrote(b"GIF89a"),
        _ => wrote(b""),
    });
    assert_eq!(result, Ok(Some(image("image/gif", "R0lGODlh"))));
}

#[test]
fn nothing_is_asked_after_the_first_image() {
    let (_, asked) =
        read(priority_order(), holding(b"", vec![(ImageFormat::Png, b"x".to_vec())]));
    assert_eq!(asked, vec![Request::ListTypes, Request::Content(ImageFormat::Png)]);
    let (_, asked) =
        read(priority_order(), holding(b"", vec![(ImageFormat::Bmp, b"x".to_vec())]));
    assert_eq!(
        asked,
        vec![
            Request::ListTypes,
            Request::Content(ImageFormat::Png),
            Request::Content(ImageFormat::Jpeg),
            Request::Content(ImageFormat::Bmp),
        ]
    );
}

#[test]
fn candidates_are_tried_in_the_order_given() {
    let contents = vec![(ImageFormat::Png, b"\x89PNG\r\n\x1a\n".to_vec()), (ImageFormat::Gif, b"GIF89a".to_vec())];
    let (result, asked) = read(
        vec![ImageFormat::Gif, ImageFormat::Bmp, ImageFormat::Jpeg, ImageFormat::Png],
        holding(b"", contents.clone()),
    );
    assert_eq!(result, Ok(Some(image("image/gif", "R0lGODlh"))));
    assert_eq!(asked, vec![Request::ListTypes, Request::Content(ImageFormat::Gif)]);
    let (result, asked) =
        read(vec![ImageFormat::Jpeg, ImageFormat::Png], holding(b"", contents.clone()));
    assert_eq!(result, Ok(Some(image("image/png", "iVBORw0KGgo="))));
    assert_eq!(
        asked,
        vec![
            Request::ListTypes,
            Request::Content(ImageFormat::Jpeg),
            Request::Content(ImageFormat::Png),
        ]
    );
}

#[test]
fn a_format_that_is_no_candidate_is_not_found() {
    let (result, asked) = read(
        vec![ImageFormat::Jpeg, ImageFormat::Bmp],
        holding(b"image/png\n", vec![(ImageFormat::Png, b"\x89PNG".to_vec())]),
    );
    assert_eq!(result, Ok(None));
    assert_eq!(asked.len(), 3);
}

#[test]
fn without_candidates_only_the_list_is_asked_for() {
    let (result, asked) = read(Vec::new(), |_| wrote(b"\x89PNG"));
    assert_eq!(result, Ok(None));
    assert_eq!(asked, vec![Request::ListTypes]);
}

#[test]
fn a_candidate_named_twice_is_asked_for_twice() {
    let (result, asked) = read(vec![ImageFormat::Png, ImageFormat::Png], |_| wrote(b""));
    assert_eq!(result, Ok(None));
    assert_eq!(
        asked,
        vec![
            Request::ListTypes,
            Request::Content(ImageFormat::Png),
            Request::Content(ImageFormat::Png),
        ]
    );
}

#[test]
fn the_data_decodes_to_what_the_utility_wrote() {
    for len in [1usize, 2, 3, 4, 5, 255, 256, 1024, 4097] {
        let bytes = patterned(len);
        let (result, _) =
            read(priority_order(), holding(b"", vec![(ImageFormat::Jpeg, bytes.clone())]));
        let found = result.expect("no error").expect("an image");
        let back = base64::engine::general_purpose::STANDARD
            .decode(found.data.as_bytes())
            .expect("the data is base64");
        assert_eq!(back, bytes);
    }
}

#[test]
fn an_image_never_has_empty_data() {
    for format in priority_order() {
        let (result, _) = read(priority_order(), holding(b"", vec![(format, vec![0u8])]));
        let found = result.expect("no error").expect("an image");
        assert_eq!(found.data, "AA==");
        assert!(!found.data.is_empty());
    }
}

#[test]
fn a_session_takes_any_answer_that_can_be_encoded() {
    let session = Session::standard();
    assert!(session.accepts(&wrote(b"anything")));
    assert!(session.accepts(&not_started()));
    match session.answer(not_started()) {
        Step::Ask(session) => {
            assert!(session.accepts(&wrote(&patterned(4096))));
            assert!(session.accepts(&wrote(b"")));
            assert!(session.accepts(&failed(b"x", b"y")));
            assert!(session.accepts(&not_started()));
        },
        Step::Done(result) => panic!("done too early: {:?}", result),
    }
}
