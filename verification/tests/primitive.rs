use scene::alignment::{Horizontal, Vertical};
use scene::color::{Background, Color};
use scene::damage::Damage;
use scene::font::{Family, Font, Weight};
use scene::geometry::{Pixels, Point, Rectangle, Size, Vector};
use scene::image;
use scene::layer;
use scene::length::Length;
use scene::mesh::{Custom, Mesh, Primitive, Vertex};
use scene::primitive::text::{Content, Span};
use scene::svg;
use scene::text;
use scene::text::{LineHeight, Shaping};
use scene::traversal::Leaf;
use std::sync::Arc;

const SANS: Font = Font { family: Family::SansSerif, weight: Weight::Normal, monospaced: false };
const MONO: Font = Font { family: Family::Monospace, weight: Weight::Bold, monospaced: true };

const WHITE: Color<i32> = Color { r: 255, g: 255, b: 255, a: 255 };
const RED: Color<i32> = Color { r: 255, g: 0, b: 0, a: 255 };

fn rectangle(x: i32, y: i32, width: i32, height: i32) -> Rectangle<i32> {
    Rectangle { x, y, width, height }
}

fn quad(x: i32) -> Primitive<i32> {
    Primitive::Quad {
        bounds: rectangle(x, 0, 10, 10),
        background: Background::Color(WHITE),
        border_radius: [1, 2, 3, 4],
        border_width: 1,
        border_color: RED,
    }
}

fn mesh(width: i32, height: i32) -> Mesh<i32> {
    Mesh {
        vertices: vec![
            Vertex { position: Point { x: 0, y: 0 }, color: RED },
            Vertex { position: Point { x: width, y: 0 }, color: RED },
            Vertex { position: Point { x: 0, y: height }, color: WHITE },
        ],
        indices: vec![0, 1, 2],
        size: Size { width, height },
    }
}

fn label(content: &str) -> Primitive<i32> {
    Primitive::Text {
        content: Content::Span(Span { content: content.to_string(), color: RED, font: SANS }),
        bounds: rectangle(0, 0, 100, 20),
        size: 16,
        line_height: LineHeight::Relative(1),
        horizontal_alignment: Horizontal::Left,
        vertical_alignment: Vertical::Top,
        shaping: Shaping::Basic,
    }
}

#[test]
fn clip_wraps_the_primitive_unchanged() {
    let clipped = quad(1).clip(rectangle(5, 6, 7, 8));
    match clipped {
        Primitive::Clip { bounds, content } => {
            assert_eq!(bounds, rectangle(5, 6, 7, 8));
            assert_eq!(*content, quad(1));
        }
        other => panic!("not a clip: {:?}", other),
    }
}

#[test]
fn translate_wraps_the_primitive_unchanged() {
    let moved = label("Hello").translate(Vector { x: -3, y: 4 });
    match moved {
        Primitive::Translate { translation, content } => {
            assert_eq!(translation, Vector { x: -3, y: 4 });
            assert_eq!(*content, label("Hello"));
        }
        other => panic!("not a translation: {:?}", other),
    }
}

#[test]
fn group_keeps_the_order() {
    let group = Primitive::group(vec![quad(1), quad(2), quad(3)]);
    assert_eq!(group, Primitive::Group { primitives: vec![quad(1), quad(2), quad(3)] });
    assert_ne!(group, Primitive::Group { primitives: vec![quad(3), quad(2), quad(1)] });
}

#[test]
fn group_may_be_empty() {
    let group: Primitive<i32> = Primitive::group(Vec::new());
    assert_eq!(group, Primitive::Group { primitives: Vec::new() });
}

#[test]
fn combinators_nest() {
    let scene = Primitive::group(vec![quad(1), label("a")])
        .clip(rectangle(0, 0, 50, 50))
        .translate(Vector { x: 10, y: 20 });
    assert_eq!(
        scene,
        Primitive::Translate {
            translation: Vector { x: 10, y: 20 },
            content: Box::new(Primitive::Clip {
                bounds: rectangle(0, 0, 50, 50),
                content: Box::new(Primitive::Group { primitives: vec![quad(1), label("a")] }),
            }),
        }
    );
}

#[test]
fn clone_copies_the_tree_and_shares_the_cache() {
    let cached = Arc::new(Primitive::group(vec![quad(7), label("cached")]));
    let scene = Primitive::group(vec![
        label("Hello"),
        quad(1).clip(rectangle(0, 0, 5, 5)),
        Primitive::Image { handle: image::Handle { id: 3 }, bounds: rectangle(1, 1, 2, 2) },
        Primitive::Svg { handle: svg::Handle { id: 4 }, color: Some(RED), bounds: rectangle(2, 2, 3, 3) },
        Primitive::Cache { content: Arc::clone(&cached) }.translate(Vector { x: 1, y: 1 }),
        Primitive::Custom(Custom::Mesh(mesh(30, 40))),
    ]);
    assert_eq!(Arc::strong_count(&cached), 2);

    let copy = scene.clone();
    assert_eq!(copy, scene);
    assert_eq!(Arc::strong_count(&cached), 3);

    match &copy {
        Primitive::Group { primitives } => match &primitives[4] {
            Primitive::Translate { content, .. } => match &**content {
                Primitive::Cache { content } => assert!(Arc::ptr_eq(content, &cached)),
                other => panic!("not a cache: {:?}", other),
            },
            other => panic!("not a translation: {:?}", other),
        },
        other => panic!("not a group: {:?}", other),
    }

    drop(copy);
    assert_eq!(Arc::strong_count(&cached), 2);
}

#[test]
fn mesh_bounds_start_at_the_origin() {
    assert_eq!(mesh(30, 40).bounds(), rectangle(0, 0, 30, 40));
    assert_eq!(Custom::Mesh(mesh(30, 40)).bounds(), rectangle(0, 0, 30, 40));
    assert_eq!(Custom::Mesh(mesh(0, 0)).bounds(), rectangle(0, 0, 0, 0));
}

#[test]
fn custom_primitives_compare_by_value() {
    assert_eq!(Custom::Mesh(mesh(30, 40)), Custom::Mesh(mesh(30, 40)));
    assert_ne!(Custom::Mesh(mesh(30, 40)), Custom::Mesh(mesh(30, 41)));
}

#[test]
fn owned_span_copies_the_characters() {
    let characters = String::from("Hello");
    let borrowed = text::Span { content: characters.as_str(), color: RED, font: MONO };
    let owned = Span::from(borrowed);
    drop(characters);
    assert_eq!(owned, Span { content: String::from("Hello"), color: RED, font: MONO });
}

#[test]
fn borrowed_span_sees_the_characters() {
    let owned = Span { content: String::from("Hello"), color: WHITE, font: SANS };
    let borrowed = text::Span::from(&owned);
    assert_eq!(borrowed.content, "Hello");
    assert_eq!(borrowed.color, WHITE);
    assert_eq!(borrowed.font, SANS);
}

#[test]
fn owned_content_keeps_kind_and_order() {
    let single = Content::from(text::Content::span("one", RED, SANS));
    assert_eq!(single, Content::Span(Span { content: String::from("one"), color: RED, font: SANS }));

    let several = Content::from(text::Content::Spans(vec![
        text::Span { content: "one", color: RED, font: SANS },
        text::Span { content: "", color: WHITE, font: MONO },
        text::Span { content: "three", color: WHITE, font: SANS },
    ]));
    assert_eq!(
        several,
        Content::Spans(vec![
            Span { content: String::from("one"), color: RED, font: SANS },
            Span { content: String::new(), color: WHITE, font: MONO },
            Span { content: String::from("three"), color: WHITE, font: SANS },
        ])
    );

    let none: Content<i32> = Content::from(text::Content::Spans(Vec::new()));
    assert_eq!(none, Content::Spans(Vec::new()));
}

#[test]
fn borrowed_content_keeps_kind_and_order() {
    let single = Content::Span(Span { content: String::from("one"), color: RED, font: SANS });
    match text::Content::from(&single) {
        text::Content::Span(span) => {
            assert_eq!(span.content, "one");
            assert_eq!(span.color, RED);
            assert_eq!(span.font, SANS);
        }
        text::Content::Spans(_) => panic!("a single span became several"),
    }

    let several = Content::Spans(vec![
        Span { content: String::from("one"), color: RED, font: SANS },
        Span { content: String::from("two"), color: WHITE, font: MONO },
    ]);
    match text::Content::from(&several) {
        text::Content::Spans(spans) => {
            assert_eq!(spans.len(), 2);
            assert_eq!(spans[0].content, "one");
            assert_eq!(spans[0].color, RED);
            assert_eq!(spans[1].content, "two");
            assert_eq!(spans[1].font, MONO);
        }
        text::Content::Span(_) => panic!("several spans became one"),
    }
}

#[test]
fn content_survives_the_round_trip() {
    let owned = Content::Spans(vec![
        Span { content: String::from("one"), color: RED, font: SANS },
        Span { content: String::from("two"), color: WHITE, font: MONO },
    ]);
    assert_eq!(Content::from(text::Content::from(&owned)), owned);
}

#[test]
fn background_from_a_color() {
    assert_eq!(Background::from(RED), Background::Color(RED));
}

#[test]
fn length_from_pixels_is_fixed() {
    assert_eq!(Length::from(Pixels(12)), Length::Fixed(12));
}

#[test]
fn layer_text_holds_a_paragraph() {
    let text = layer::Text {
        content: text::Content::span("Hello", RED, SANS),
        bounds: rectangle(1, 2, 3, 4),
        size: 16,
        line_height: LineHeight::Absolute(Pixels(20)),
        horizontal_alignment: Horizontal::Center,
        vertical_alignment: Vertical::Bottom,
        shaping: Shaping::Advanced,
    };
    let copy = text.clone();
    assert_eq!(copy.bounds, rectangle(1, 2, 3, 4));
    assert_eq!(copy.size, 16);
    assert_eq!(copy.content.iter()[0].content, "Hello");
}

#[test]
fn leaves_cover_their_bounds() {
    assert_eq!(label("Hello").bounds(), rectangle(0, 0, 100, 20));
    assert_eq!(quad(7).bounds(), rectangle(7, 0, 10, 10));
    let image: Primitive<i32> =
        Primitive::Image { handle: image::Handle { id: 1 }, bounds: rectangle(1, 2, 3, 4) };
    assert_eq!(image.bounds(), rectangle(1, 2, 3, 4));
    let graphic: Primitive<i32> =
        Primitive::Svg { handle: svg::Handle { id: 1 }, color: None, bounds: rectangle(5, 6, 7, 8) };
    assert_eq!(graphic.bounds(), rectangle(5, 6, 7, 8));
    assert_eq!(Primitive::Custom(Custom::Mesh(mesh(30, 40))).bounds(), rectangle(0, 0, 30, 40));
}

#[test]
fn group_covers_the_union_of_its_primitives() {
    let group = Primitive::group(vec![quad(20), quad(50), label("Hello").translate(Vector { x: 0, y: 30 })]);
    assert_eq!(group.bounds(), rectangle(0, 0, 100, 50));

    let single = Primitive::group(vec![quad(20)]);
    assert_eq!(single.bounds(), rectangle(20, 0, 10, 10));

    let away = Primitive::group(vec![quad(20), quad(50)]);
    assert_eq!(away.bounds(), rectangle(20, 0, 40, 10));
}

#[test]
fn empty_group_covers_nothing() {
    let group: Primitive<i32> = Primitive::group(Vec::new());
    assert_eq!(group.bounds(), rectangle(0, 0, 0, 0));
}

#[test]
fn clip_covers_what_it_shares_with_its_content() {
    assert_eq!(label("Hello").clip(rectangle(10, 5, 50, 50)).bounds(), rectangle(10, 5, 50, 15));
    assert_eq!(label("Hello").clip(rectangle(-10, -10, 500, 500)).bounds(), rectangle(0, 0, 100, 20));
}

#[test]
fn clip_away_from_its_content_covers_nothing() {
    assert_eq!(label("Hello").clip(rectangle(200, 300, 50, 50)).bounds(), rectangle(200, 300, 0, 0));
    assert_eq!(label("Hello").clip(rectangle(100, 0, 50, 50)).bounds(), rectangle(100, 0, 0, 0));
}

#[test]
fn translation_moves_what_its_content_covers() {
    assert_eq!(quad(7).translate(Vector { x: 3, y: -4 }).bounds(), rectangle(10, -4, 10, 10));
    assert_eq!(
        quad(7).translate(Vector { x: 3, y: -4 }).translate(Vector { x: 1, y: 1 }).bounds(),
        rectangle(11, -3, 10, 10)
    );
}

#[test]
fn cache_covers_what_its_content_covers() {
    let cached = Arc::new(Primitive::group(vec![quad(0), quad(30)]));
    let cache: Primitive<i32> = Primitive::Cache { content: cached };
    assert_eq!(cache.bounds(), rectangle(0, 0, 40, 10));
}

#[test]
fn bounds_follow_the_nesting() {
    let scene = Primitive::group(vec![
        quad(0),
        Primitive::group(vec![quad(100), label("Hello").translate(Vector { x: 50, y: 50 })])
            .clip(rectangle(90, 0, 30, 60)),
    ])
    .translate(Vector { x: -10, y: 10 });
    assert_eq!(scene.bounds(), rectangle(-10, 10, 120, 60));
}

#[test]
fn paragraph_becomes_a_text_primitive() {
    let characters = String::from("Hello");
    let paragraph = text::Text {
        content: text::Content::Spans(vec![
            text::Span { content: characters.as_str(), color: RED, font: SANS },
            text::Span { content: "!", color: WHITE, font: MONO },
        ]),
        bounds: rectangle(110, 70, 100, 50),
        size: 16,
        line_height: LineHeight::Absolute(Pixels(20)),
        horizontal_alignment: Horizontal::Right,
        vertical_alignment: Vertical::Bottom,
        shaping: Shaping::Advanced,
    };
    let primitive: Primitive<i32> = Primitive::from(paragraph);
    drop(characters);
    assert_eq!(
        primitive,
        Primitive::Text {
            content: Content::Spans(vec![
                Span { content: String::from("Hello"), color: RED, font: SANS },
                Span { content: String::from("!"), color: WHITE, font: MONO },
            ]),
            bounds: rectangle(110, 70, 100, 50),
            size: 16,
            line_height: LineHeight::Absolute(Pixels(20)),
            horizontal_alignment: Horizontal::Right,
            vertical_alignment: Vertical::Bottom,
            shaping: Shaping::Advanced,
        }
    );
    assert_eq!(primitive.bounds(), rectangle(110, 70, 100, 50));
}

#[test]
fn owned_content_clones_to_an_equal() {
    let span = Span { content: String::from("one"), color: RED, font: SANS };
    assert_eq!(span.clone(), span);

    let single = Content::Span(Span { content: String::from("one"), color: RED, font: SANS });
    assert_eq!(single.clone(), single);

    let several = Content::Spans(vec![
        Span { content: String::from("one"), color: RED, font: SANS },
        Span { content: String::from("two"), color: WHITE, font: MONO },
    ]);
    assert_eq!(several.clone(), several);

    let none: Content<i32> = Content::Spans(Vec::new());
    assert_eq!(none.clone(), none);
}

const SCREEN: Rectangle<i32> = Rectangle { x: 0, y: 0, width: 800, height: 600 };
const HOME: Vector<i32> = Vector { x: 0, y: 0 };

#[test]
fn a_leaf_is_drawn_as_it_is() {
    let quad = quad(1);
    assert_eq!(
        quad.leaves(SCREEN, Vector { x: 3, y: 4 }),
        vec![Leaf { primitive: &quad, translation: Vector { x: 3, y: 4 }, clip: SCREEN }]
    );

    let custom: Primitive<i32> = Primitive::Custom(Custom::Mesh(mesh(30, 40)));
    assert_eq!(
        custom.leaves(SCREEN, HOME),
        vec![Leaf { primitive: &custom, translation: HOME, clip: SCREEN }]
    );
}

#[test]
fn a_group_is_drawn_in_its_order() {
    let group = Primitive::group(vec![quad(1), label("two"), quad(3)]);
    let leaves = group.leaves(SCREEN, HOME);
    assert_eq!(
        leaves,
        vec![
            Leaf { primitive: &quad(1), translation: HOME, clip: SCREEN },
            Leaf { primitive: &label("two"), translation: HOME, clip: SCREEN },
            Leaf { primitive: &quad(3), translation: HOME, clip: SCREEN },
        ]
    );
}

#[test]
fn an_empty_group_draws_nothing() {
    let group: Primitive<i32> = Primitive::group(Vec::new());
    assert!(group.leaves(SCREEN, HOME).is_empty());
}

#[test]
fn groups_are_walked_depth_first() {
    let scene = Primitive::group(vec![
        quad(1),
        Primitive::group(vec![quad(2), Primitive::group(vec![quad(3)]), quad(4)]),
        quad(5),
    ]);
    let order: Vec<Primitive<i32>> =
        scene.leaves(SCREEN, HOME).iter().map(|leaf| leaf.primitive.clone()).collect();
    assert_eq!(order, vec![quad(1), quad(2), quad(3), quad(4), quad(5)]);
}

#[test]
fn translations_add_up() {
    let scene = Primitive::group(vec![
        quad(1),
        Primitive::group(vec![quad(2).translate(Vector { x: 1, y: 1 }), quad(3)])
            .translate(Vector { x: 10, y: 20 }),
        quad(4),
    ]);
    assert_eq!(
        scene.leaves(SCREEN, Vector { x: 100, y: 200 }),
        vec![
            Leaf { primitive: &quad(1), translation: Vector { x: 100, y: 200 }, clip: SCREEN },
            Leaf { primitive: &quad(2), translation: Vector { x: 111, y: 221 }, clip: SCREEN },
            Leaf { primitive: &quad(3), translation: Vector { x: 110, y: 220 }, clip: SCREEN },
            Leaf { primitive: &quad(4), translation: Vector { x: 100, y: 200 }, clip: SCREEN },
        ]
    );
}

#[test]
fn clips_narrow_on_the_way_down() {
    let scene = Primitive::group(vec![
        Primitive::group(vec![quad(1), quad(2).clip(rectangle(50, 50, 100, 100))])
            .clip(rectangle(0, 0, 100, 80)),
        quad(3),
    ]);
    assert_eq!(
        scene.leaves(SCREEN, HOME),
        vec![
            Leaf { primitive: &quad(1), translation: HOME, clip: rectangle(0, 0, 100, 80) },
            Leaf { primitive: &quad(2), translation: HOME, clip: rectangle(50, 50, 50, 30) },
            Leaf { primitive: &quad(3), translation: HOME, clip: SCREEN },
        ]
    );
}

#[test]
fn clips_move_with_the_translations_above_them() {
    let scene = quad(1).clip(rectangle(0, 0, 100, 100)).translate(Vector { x: 750, y: 10 });
    assert_eq!(
        scene.leaves(SCREEN, HOME),
        vec![Leaf {
            primitive: &quad(1),
            translation: Vector { x: 750, y: 10 },
            clip: rectangle(750, 10, 50, 100),
        }]
    );
}

#[test]
fn a_clip_outside_the_clip_above_draws_nothing() {
    let scene = Primitive::group(vec![
        quad(1),
        Primitive::group(vec![quad(2), quad(3)]).clip(rectangle(900, 0, 100, 100)),
        quad(4).clip(rectangle(0, 0, 10, 10)).translate(Vector { x: 800, y: 0 }),
        quad(5),
    ]);
    let order: Vec<Primitive<i32>> =
        scene.leaves(SCREEN, HOME).iter().map(|leaf| leaf.primitive.clone()).collect();
    assert_eq!(order, vec![quad(1), quad(5)]);
}

#[test]
fn a_cache_is_drawn_as_its_content() {
    let content = Primitive::group(vec![quad(1), quad(2).translate(Vector { x: 5, y: 5 })]);
    let cache: Primitive<i32> = Primitive::Cache { content: Arc::new(content.clone()) };
    assert_eq!(cache.leaves(SCREEN, HOME), content.leaves(SCREEN, HOME));
    assert_eq!(cache.leaves(SCREEN, HOME).len(), 2);

    let twice = Primitive::group(vec![cache.clone(), cache.translate(Vector { x: 10, y: 0 })]);
    assert_eq!(
        twice.leaves(SCREEN, HOME),
        vec![
            Leaf { primitive: &quad(1), translation: HOME, clip: SCREEN },
            Leaf { primitive: &quad(2), translation: Vector { x: 5, y: 5 }, clip: SCREEN },
            Leaf { primitive: &quad(1), translation: Vector { x: 10, y: 0 }, clip: SCREEN },
            Leaf { primitive: &quad(2), translation: Vector { x: 15, y: 5 }, clip: SCREEN },
        ]
    );
}
