use scene::color::Color;
use scene::font::{Family, Font, Weight};
use scene::geometry::Pixels;
use scene::scalar::Scalar;
use scene::text::{Content, Hit, LineHeight, Shaping, Span};
use std::collections::hash_map::DefaultHasher;
use std::hash::{Hash, Hasher};

/// A single-precision number, hashed by its bits.
#[derive(Clone, Copy, Debug, PartialEq)]
struct Float(f32);

impl Hash for Float {
    fn hash<H: Hasher>(&self, state: &mut H) {
        self.0.to_bits().hash(state);
    }
}

impl Scalar for Float {
    fn integer(value: u32) -> Float {
        Float::whole(value)
    }

    fn unbounded() -> Float {
        Float::infinity()
    }

    fn sum(self, other: Float) -> Float {
        self.plus(other)
    }

    fn difference(self, other: Float) -> Float {
        self.minus(other)
    }

    fn product(self, other: Float) -> Float {
        self.times(other)
    }

    fn quotient(self, other: Float) -> Float {
        self.over(other)
    }

    fn equals(self, other: Float) -> bool {
        self.same(other)
    }

    fn precedes(self, other: Float) -> bool {
        self.below(other)
    }

    fn whole(value: u32) -> Float {
        Float(value as f32)
    }

    fn infinity() -> Float {
        Float(f32::INFINITY)
    }

    fn plus(self, other: Float) -> Float {
        Float(self.0 + other.0)
    }

    fn minus(self, other: Float) -> Float {
        Float(self.0 - other.0)
    }

    fn times(self, other: Float) -> Float {
        Float(self.0 * other.0)
    }

    fn over(self, other: Float) -> Float {
        Float(self.0 / other.0)
    }

    fn same(self, other: Float) -> bool {
        self.0 == other.0
    }

    fn below(self, other: Float) -> bool {
        self.0 < other.0
    }
}

const SANS: Font = Font { family: Family::SansSerif, weight: Weight::Normal, monospaced: false };
const MONO: Font = Font { family: Family::Monospace, weight: Weight::Bold, monospaced: true };

fn black() -> Color<Float> {
    Color { r: Float(0.0), g: Float(0.0), b: Float(0.0), a: Float(1.0) }
}

fn red() -> Color<Float> {
    Color { r: Float(1.0), g: Float(0.0), b: Float(0.0), a: Float(1.0) }
}

fn digest<T: Hash>(value: &T) -> u64 {
    let mut hasher = DefaultHasher::new();
    value.hash(&mut hasher);
    hasher.finish()
}

#[test]
fn relative_line_height_scales_with_the_text() {
    assert_eq!(
        LineHeight::Relative(Float(1.5)).to_absolute(Pixels(Float(16.0))),
        Pixels(Float(24.0))
    );
    assert_eq!(
        LineHeight::Relative(Float(1.3)).to_absolute(Pixels(Float(16.0))),
        Pixels(Float(1.3 * 16.0))
    );
    assert_eq!(
        LineHeight::Relative(Float(0.0)).to_absolute(Pixels(Float(16.0))),
        Pixels(Float(0.0))
    );
    assert_eq!(
        LineHeight::Relative(Float(-2.0)).to_absolute(Pixels(Float(10.0))),
        Pixels(Float(-20.0))
    );
    assert_eq!(LineHeight::Relative(3).to_absolute(Pixels(16)), Pixels(48));
}

#[test]
fn relative_line_height_follows_the_numbers_to_their_limits() {
    let height = LineHeight::Relative(Float(f32::INFINITY)).to_absolute(Pixels(Float(2.0)));
    assert_eq!(height, Pixels(Float(f32::INFINITY)));

    let Pixels(Float(undefined)) =
        LineHeight::Relative(Float(f32::NAN)).to_absolute(Pixels(Float(2.0)));
    assert!(undefined.is_nan());
}

#[test]
fn absolute_line_height_ignores_the_text_size() {
    let height = LineHeight::Absolute(Pixels(Float(18.0)));
    assert_eq!(height.to_absolute(Pixels(Float(16.0))), Pixels(Float(18.0)));
    assert_eq!(height.to_absolute(Pixels(Float(0.0))), Pixels(Float(18.0)));
    assert_eq!(height.to_absolute(Pixels(Float(f32::INFINITY))), Pixels(Float(18.0)));
    assert_eq!(LineHeight::Absolute(Pixels(7)).to_absolute(Pixels(1000)), Pixels(7));
}

#[test]
fn default_line_height_is_thirteen_tenths() {
    assert_eq!(LineHeight::<Float>::default(), LineHeight::Relative(Float(1.3)));
}

#[test]
fn line_height_from_a_factor_is_relative() {
    assert_eq!(LineHeight::from(Float(2.0)), LineHeight::Relative(Float(2.0)));
    let height: LineHeight<Float> = Float(1.1).into();
    assert_eq!(height, LineHeight::Relative(Float(1.1)));
}

#[test]
fn line_height_from_pixels_is_absolute() {
    assert_eq!(LineHeight::from(Pixels(Float(20.0))), LineHeight::Absolute(Pixels(Float(20.0))));
    let height: LineHeight<Float> = Pixels(Float(12.0)).into();
    assert_eq!(height, LineHeight::Absolute(Pixels(Float(12.0))));
}

#[test]
fn line_height_variants_hash_apart() {
    let relative = LineHeight::Relative(Float(1.3));
    let absolute = LineHeight::Absolute(Pixels(Float(1.3)));
    assert_ne!(relative, absolute);
    assert_ne!(digest(&relative), digest(&absolute));

    let bits = 1.3f32.to_bits();
    assert_ne!(digest(&LineHeight::Relative(bits)), digest(&LineHeight::Absolute(Pixels(bits))));
}

#[test]
fn equal_line_heights_hash_alike() {
    assert_eq!(
        digest(&LineHeight::Relative(Float(1.3))),
        digest(&LineHeight::Relative(Float(1.3)))
    );
    assert_eq!(
        digest(&LineHeight::Absolute(Pixels(Float(20.0)))),
        digest(&LineHeight::Absolute(Pixels(Float(20.0))))
    );
    assert_ne!(
        digest(&LineHeight::Relative(Float(1.3))),
        digest(&LineHeight::Relative(Float(1.4)))
    );
}

#[test]
fn shaping_is_basic_unless_asked() {
    assert_eq!(Shaping::default(), Shaping::Basic);
    assert_ne!(Shaping::default(), Shaping::Advanced);
}

#[test]
fn hit_cursor_is_the_offset() {
    assert_eq!(Hit::CharOffset(0).cursor(), 0);
    assert_eq!(Hit::CharOffset(42).cursor(), 42);
    assert_eq!(Hit::CharOffset(usize::MAX).cursor(), usize::MAX);
}

#[test]
fn content_span_holds_what_it_was_given() {
    match Content::span("Hello", red(), SANS) {
        Content::Span(span) => {
            assert_eq!(span.content, "Hello");
            assert_eq!(span.color, red());
            assert_eq!(span.font, SANS);
        }
        Content::Spans(_) => panic!("a single span was asked for"),
    }
}

#[test]
fn single_span_iterates_once() {
    let content = Content::span("Hello", black(), SANS);
    let spans = content.iter();
    assert_eq!(spans.len(), 1);
    assert_eq!(spans[0].content, "Hello");
    assert_eq!(spans[0].color, black());
    assert_eq!(spans[0].font, SANS);
}

#[test]
fn spans_iterate_in_paragraph_order() {
    let content = Content::Spans(vec![
        Span { content: "one", color: black(), font: SANS },
        Span { content: "", color: red(), font: MONO },
        Span { content: "three", color: red(), font: SANS },
    ]);
    let spans = content.iter();
    assert_eq!(spans.len(), 3);
    assert_eq!(spans[0].content, "one");
    assert_eq!(spans[1].content, "");
    assert_eq!(spans[1].font, MONO);
    assert_eq!(spans[2].content, "three");
    assert_eq!(spans[2].color, red());

    match &content {
        Content::Spans(held) => assert_eq!(held.len(), 3),
        Content::Span(_) => panic!("iteration changed the content"),
    }
}

#[test]
fn no_spans_iterate_to_nothing() {
    let content: Content<'_, Font, Float> = Content::Spans(Vec::new());
    assert!(content.iter().is_empty());
}
