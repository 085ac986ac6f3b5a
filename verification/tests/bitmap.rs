use imgview::bitmap::Bitmap;
use imgview::command::{Command, Next, Reply, TextureParameter, TextureSetting};
use imgview::error::Error;
use imgview::texture::Texture;

/// A file of the given pixels, and the image that the decoder of the
/// `image` crate makes of it, converted as the application converts.
fn decoded(width: u32, height: u32, rgb: &[u8]) -> Option<Bitmap> {
    let mut file = Vec::new();
    image::png::PngEncoder::new(&mut file)
        .encode(rgb, width, height, image::ColorType::Rgb8)
        .unwrap();
    let rgba = image::load_from_memory(&file).ok()?.to_rgba8();
    let (width, height) = rgba.dimensions();
    Bitmap::new(width, height, rgba.into_raw())
}

#[test]
fn bitmap_needs_four_bytes_for_each_pixel() {
    assert!(Bitmap::new(2, 2, vec![0; 16]).is_some());
    assert!(Bitmap::new(2, 2, vec![0; 15]).is_none());
    assert!(Bitmap::new(2, 2, vec![0; 17]).is_none());
    assert!(Bitmap::new(0, 5, vec![]).is_some());
    assert!(Bitmap::new(5, 0, vec![]).is_some());
    assert!(Bitmap::new(0, 0, vec![1]).is_none());
    assert!(Bitmap::new(4294967295, 4294967295, vec![]).is_none());
}

#[test]
fn bitmap_keeps_what_it_was_given() {
    let bitmap = Bitmap::new(1, 2, vec![1, 2, 3, 4, 5, 6, 7, 8]).unwrap();
    assert_eq!(bitmap.width(), 1);
    assert_eq!(bitmap.height(), 2);
    assert_eq!(bitmap.pixels(), &vec![1, 2, 3, 4, 5, 6, 7, 8]);
    assert_eq!(bitmap.into_pixels(), vec![1, 2, 3, 4, 5, 6, 7, 8]);
}

#[test]
fn flip_reverses_the_rows() {
    let rows: Vec<u8> = (0..24).collect();
    let bitmap = Bitmap::new(2, 3, rows).unwrap();
    let flipped = bitmap.flip();
    assert_eq!(flipped.width(), 2);
    assert_eq!(flipped.height(), 3);
    assert_eq!(
        flipped.into_pixels(),
        vec![16, 17, 18, 19, 20, 21, 22, 23, 8, 9, 10, 11, 12, 13, 14, 15, 0, 1, 2, 3, 4, 5, 6, 7]
    );
}

#[test]
fn flip_of_one_row_changes_nothing() {
    let bitmap = Bitmap::new(3, 1, (0..12).collect()).unwrap();
    assert_eq!(bitmap.flip().into_pixels(), (0..12).collect::<Vec<u8>>());
}

#[test]
fn flip_of_an_empty_image_is_empty() {
    assert_eq!(Bitmap::new(0, 3, vec![]).unwrap().flip().into_pixels(), Vec::<u8>::new());
    assert_eq!(Bitmap::new(3, 0, vec![]).unwrap().flip().into_pixels(), Vec::<u8>::new());
}

#[test]
fn flip_twice_gives_the_image_back() {
    let bytes: Vec<u8> = (0..60).map(|i| (i * 7 % 251) as u8).collect();
    let bitmap = Bitmap::new(3, 5, bytes.clone()).unwrap();
    assert_eq!(bitmap.flip().flip().into_pixels(), bytes);
}

#[test]
fn flip_moves_each_byte_to_the_mirrored_row() {
    let (width, height) = (3usize, 4usize);
    let bytes: Vec<u8> = (0..width * height * 4).map(|i| i as u8).collect();
    let flipped = Bitmap::new(3, 4, bytes.clone()).unwrap().flip().into_pixels();
    assert_eq!(flipped.len(), bytes.len());
    for y in 0..height {
        for x in 0..width * 4 {
            assert_eq!(flipped[y * width * 4 + x], bytes[(height - 1 - y) * width * 4 + x]);
        }
    }
}

#[test]
fn decoder_output_makes_a_bitmap() {
    let bitmap = decoded(2, 2, &[255, 0, 0, 0, 255, 0, 0, 0, 255, 9, 8, 7]).unwrap();
    assert_eq!((bitmap.width(), bitmap.height()), (2, 2));
    assert_eq!(
        bitmap.into_pixels(),
        vec![255, 0, 0, 255, 0, 255, 0, 255, 0, 0, 255, 255, 9, 8, 7, 255]
    );
}

#[test]
fn texture_upload_flips_and_sets_sampling() {
    let image = Bitmap::new(1, 2, vec![1, 2, 3, 4, 5, 6, 7, 8]).unwrap();
    let (upload, run) = Texture::from_img(image);
    assert_eq!(run, vec![Command::GenTexture]);
    let step = upload.advance(Reply::Name(11));
    assert_eq!(
        step.run,
        vec![
            Command::BindTexture { texture: 11 },
            Command::TexParameter {
                parameter: TextureParameter::WrapS,
                setting: TextureSetting::ClampToEdge
            },
            Command::TexParameter {
                parameter: TextureParameter::WrapT,
                setting: TextureSetting::ClampToEdge
            },
            Command::TexParameter {
                parameter: TextureParameter::MinFilter,
                setting: TextureSetting::LinearMipmapLinear
            },
            Command::TexParameter {
                parameter: TextureParameter::MagFilter,
                setting: TextureSetting::Linear
            },
            Command::TexImage2D { width: 1, height: 2, pixels: vec![5, 6, 7, 8, 1, 2, 3, 4] },
            Command::GenerateMipmap,
        ]
    );
    let texture = match step.next {
        Next::Done(texture) => texture,
        Next::Await(_) => panic!("the upload waits"),
    };
    assert_eq!((texture.id(), texture.width(), texture.height()), (11, 1, 2));
}

#[test]
fn texture_of_a_file_uploads_what_was_decoded() {
    let image = decoded(1, 2, &[10, 20, 30, 40, 50, 60]);
    let (upload, run) = Texture::from_path("a.png", image).unwrap();
    assert_eq!(run, vec![Command::GenTexture]);
    let step = upload.advance(Reply::Name(1));
    assert_eq!(
        step.run[5],
        Command::TexImage2D { width: 1, height: 2, pixels: vec![40, 50, 60, 255, 10, 20, 30, 255] }
    );
}

#[test]
fn texture_of_a_file_that_gave_nothing_issues_nothing() {
    match Texture::from_path("dir/a.gif", None) {
        Err(e) => assert_eq!(e, Error::ImageLoad { path: String::from("dir/a.gif") }),
        Ok(_) => panic!("made"),
    }
}

#[test]
fn upload_passes_over_an_answer_that_is_no_name() {
    let image = Bitmap::new(1, 1, vec![1, 2, 3, 4]).unwrap();
    let (upload, _) = Texture::from_img(image);
    let step = upload.advance(Reply::Value(1));
    assert_eq!(step.run, vec![]);
    let upload = match step.next {
        Next::Await(upload) => upload,
        Next::Done(_) => panic!("the upload is over"),
    };
    let step = upload.advance(Reply::Name(2));
    assert_eq!(step.run.len(), 7);
}

#[test]
fn texture_binds_to_a_unit_and_is_released_once() {
    let image = Bitmap::new(1, 1, vec![1, 2, 3, 4]).unwrap();
    let (upload, _) = Texture::from_img(image);
    let texture = match upload.advance(Reply::Name(6)).next {
        Next::Done(texture) => texture,
        Next::Await(_) => panic!("the upload waits"),
    };
    assert_eq!(
        texture.bind(0),
        vec![Command::ActiveTexture { unit: 0 }, Command::BindTexture { texture: 6 }]
    );
    assert_eq!(
        texture.bind(3),
        vec![Command::ActiveTexture { unit: 3 }, Command::BindTexture { texture: 6 }]
    );
    assert_eq!(texture.release(), vec![Command::DeleteTexture { texture: 6 }]);
}
