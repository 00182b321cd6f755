use mtk::ui::either::{either, Either, ViewEitherExt};
use mtk::ui::widgets::button::{button, Button};
use mtk::ui::widgets::{text, Text};

#[test]
fn test_either_extension_trait() {
    let text_view = text::<_, ()>("Ext Left");
    let either_left: Either<_, Button<()>> = text_view.either_left();
    assert!(either_left.is_left());

    let btn_view = button::<&str, ()>("Ext Right");
    let either_right: Either<Text<()>, _> = btn_view.either_right();
    assert!(either_right.is_right());
}

#[test]
fn test_switch_guards() {
    let count = 5;
    let view: Either<Text<()>, Either<Text<()>, Either<Button<()>, Text<()>>>> = match count {
        c if c < 0 => Either::Left(text::<_, ()>("Negative")),
        0 => Either::Right(Either::Left(text::<_, ()>("Zero"))),
        c if c > 0 => Either::Right(Either::Right(Either::Left(button::<_, ()>("Positive Button")))),
        _ => Either::Right(Either::Right(Either::Right(text::<_, ()>("Unknown")))),
    };

    assert!(view.is_right());
    assert!(view.right().unwrap().is_right());
    assert!(view.right().unwrap().right().unwrap().is_left());
}

#[test]
fn either_picks_branch_by_condition() {
    let yes: Either<u8, &str> = either(true, 1u8, "no");
    let no: Either<u8, &str> = either(false, 1u8, "no");
    assert_eq!(yes.left(), Some(&1u8));
    assert_eq!(yes.right(), None);
    assert_eq!(no.right(), Some(&"no"));
    assert_eq!(no.left(), None);
}

#[test]
fn either_maps_only_its_side() {
    let l: Either<u32, u32> = Either::Left(3);
    let r: Either<u32, u32> = Either::Right(4);
    assert_eq!(l.map_left(|x| x * 10), Either::Left(30));
    assert_eq!(r.map_left(|x| x * 10), Either::Right(4));
    assert_eq!(r.map_right(|x| x + 1), Either::Right(5));
    assert_eq!(Either::<u32, u32>::Left(7).unwrap_left(), 7);
    assert_eq!(Either::<u32, u32>::Right(8).unwrap_right(), 8);
}

#[test]
fn either_mut_access_writes_through() {
    let mut e: Either<u32, u32> = Either::Left(1);
    if let Some(x) = e.left_mut() {
        *x = 9;
    }
    assert_eq!(e, Either::Left(9));
    assert!(e.right_mut().is_none());
    match e.as_mut() {
        Either::Left(x) => *x += 1,
        Either::Right(_) => {}
    }
    assert_eq!(e, Either::Left(10));
    assert_eq!(e.as_ref(), Either::Left(&10));
}
