//! The CSS color keywords and their colors, as `Color::from_str` reads them.

use vstd::prelude::*;

use crate::color::{ascii_lower, spec_color_from_str, Color};
use crate::color_names::named_color;
use crate::error::ErrorView;
use crate::stream::{lemma_skip_while_to, ByteClass};

verus! {

/// A text of lowercase ASCII letters is read as a color keyword.
proof fn lemma_keyword_color(name: Seq<u8>)
    requires
        name.len() > 0,
        forall|i: int| 0 <= i < name.len() ==> 0x61 <= #[trigger] name[i] <= 0x7a,
    ensures
        spec_color_from_str(name) == match named_color(name) {
            Some(c) => Ok::<Color, ErrorView>(c),
            None => Err(ErrorView::InvalidValue),
        },
{
    let n = name.len() as int;
    lemma_skip_while_to(name, 0, 0, ByteClass::Space);
    lemma_skip_while_to(name, 0, n, ByteClass::Ident);
    lemma_skip_while_to(name, n, n, ByteClass::Space);
    assert(name.subrange(0, n) =~= name);
    assert(ascii_lower(name) =~= name);
}


proof fn lemma_keyword_aliceblue()
    ensures
        spec_color_from_str(seq![0x61u8, 0x6c, 0x69, 0x63, 0x65, 0x62, 0x6c, 0x75, 0x65]) == Ok::<Color, ErrorView>(
            Color { red: 240, green: 248, blue: 255, alpha: 255 },
        ),
{
    reveal(named_color);
    lemma_keyword_color(seq![0x61u8, 0x6c, 0x69, 0x63, 0x65, 0x62, 0x6c, 0x75, 0x65]);
}

proof fn lemma_keyword_antiquewhite()
    ensures
        spec_color_from_str(seq![0x61u8, 0x6e, 0x74, 0x69, 0x71, 0x75, 0x65, 0x77, 0x68, 0x69, 0x74, 0x65]) == Ok::<Color, ErrorView>(
            Color { red: 250, green: 235, blue: 215, alpha: 255 },
        ),
{
    reveal(named_color);
    lemma_keyword_color(seq![0x61u8, 0x6e, 0x74, 0x69, 0x71, 0x75, 0x65, 0x77, 0x68, 0x69, 0x74, 0x65]);
}

proof fn lemma_keyword_aqua()
    ensures
        spec_color_from_str(seq![0x61u8, 0x71, 0x75, 0x61]) == Ok::<Color, ErrorView>(
            Color { red: 0, green: 255, blue: 255, alpha: 255 },
        ),
{
    reveal(named_color);
    lemma_keyword_color(seq![0x61u8, 0x71, 0x75, 0x61]);
}

proof fn lemma_keyword_aquamarine()
    ensures
        spec_color_from_str(seq![0x61u8, 0x71, 0x75, 0x61, 0x6d, 0x61, 0x72, 0x69, 0x6e, 0x65]) == Ok::<Color, ErrorView>(
            Color { red: 127, green: 255, blue: 212, alpha: 255 },
        ),
{
    reveal(named_color);
    lemma_keyword_color(seq![0x61u8, 0x71, 0x75, 0x61, 0x6d, 0x61, 0x72, 0x69, 0x6e, 0x65]);
}

proof fn lemma_keyword_azure()
    ensures
        spec_color_from_str(seq![0x61u8, 0x7a, 0x75, 0x72, 0x65]) == Ok::<Color, ErrorView>(
            Color { red: 240, green: 255, blue: 255, alpha: 255 },
        ),
{
    reveal(named_color);
    lemma_keyword_color(seq![0x61u8, 0x7a, 0x75, 0x72, 0x65]);
}

/// The CSS color keywords that start with `a`, and their colors.
pub proof fn law_color_keywords_a()
    ensures
        // aliceblue
        spec_color_from_str(seq![0x61u8, 0x6c, 0x69, 0x63, 0x65, 0x62, 0x6c, 0x75, 0x65]) == Ok::<Color, ErrorView>(
            Color { red: 240, green: 248, blue: 255, alpha: 255 },
        ),
        // antiquewhite
        spec_color_from_str(seq![0x61u8, 0x6e, 0x74, 0x69, 0x71, 0x75, 0x65, 0x77, 0x68, 0x69, 0x74, 0x65]) == Ok::<Color, ErrorView>(
            Color { red: 250, green: 235, blue: 215, alpha: 255 },
        ),
        // aqua
        spec_color_from_str(seq![0x61u8, 0x71, 0x75, 0x61]) == Ok::<Color, ErrorView>(
            Color { red: 0, green: 255, blue: 255, alpha: 255 },
        ),
        // aquamarine
        spec_color_from_str(seq![0x61u8, 0x71, 0x75, 0x61, 0x6d, 0x61, 0x72, 0x69, 0x6e, 0x65]) == Ok::<Color, ErrorView>(
            Color { red: 127, green: 255, blue: 212, alpha: 255 },
        ),
        // azure
        spec_color_from_str(seq![0x61u8, 0x7a, 0x75, 0x72, 0x65]) == Ok::<Color, ErrorView>(
            Color { red: 240, green: 255, blue: 255, alpha: 255 },
        ),
{
    lemma_keyword_aliceblue();
    lemma_keyword_antiquewhite();
    lemma_keyword_aqua();
    lemma_keyword_aquamarine();
    lemma_keyword_azure();
}

proof fn lemma_keyword_beige()
    ensures
        spec_color_from_str(seq![0x62u8, 0x65, 0x69, 0x67, 0x65]) == Ok::<Color, ErrorView>(
            Color { red: 245, green: 245, blue: 220, alpha: 255 },
        ),
{
    reveal(named_color);
    lemma_keyword_color(seq![0x62u8, 0x65, 0x69, 0x67, 0x65]);
}

proof fn lemma_keyword_bisque()
    ensures
        spec_color_from_str(seq![0x62u8, 0x69, 0x73, 0x71, 0x75, 0x65]) == Ok::<Color, ErrorView>(
            Color { red: 255, green: 228, blue: 196, alpha: 255 },
        ),
{
    reveal(named_color);
    lemma_keyword_color(seq![0x62u8, 0x69, 0x73, 0x71, 0x75, 0x65]);
}

proof fn lemma_keyword_black()
    ensures
        spec_color_from_str(seq![0x62u8, 0x6c, 0x61, 0x63, 0x6b]) == Ok::<Color, ErrorView>(
            Color { red: 0, green: 0, blue: 0, alpha: 255 },
        ),
{
    reveal(named_color);
    lemma_keyword_color(seq![0x62u8, 0x6c, 0x61, 0x63, 0x6b]);
}

proof fn lemma_keyword_blanchedalmond()
    ensures
        spec_color_from_str(seq![0x62u8, 0x6c, 0x61, 0x6e, 0x63, 0x68, 0x65, 0x64, 0x61, 0x6c, 0x6d, 0x6f, 0x6e, 0x64]) == Ok::<Color, ErrorView>(
            Color { red: 255, green: 235, blue: 205, alpha: 255 },
        ),
{
    reveal(named_color);
    lemma_keyword_color(seq![0x62u8, 0x6c, 0x61, 0x6e, 0x63, 0x68, 0x65, 0x64, 0x61, 0x6c, 0x6d, 0x6f, 0x6e, 0x64]);
}

proof fn lemma_keyword_blue()
    ensures
        spec_color_from_str(seq![0x62u8, 0x6c, 0x75, 0x65]) == Ok::<Color, ErrorView>(
            Color { red: 0, green: 0, blue: 255, alpha: 255 },
        ),
{
    reveal(named_color);
    lemma_keyword_color(seq![0x62u8, 0x6c, 0x75, 0x65]);
}

proof fn lemma_keyword_blueviolet()
    ensures
        spec_color_from_str(seq![0x62u8, 0x6c, 0x75, 0x65, 0x76, 0x69, 0x6f, 0x6c, 0x65, 0x74]) == Ok::<Color, ErrorView>(
            Color { red: 138, green: 43, blue: 226, alpha: 255 },
        ),
{
    reveal(named_color);
    lemma_keyword_color(seq![0x62u8, 0x6c, 0x75, 0x65, 0x76, 0x69, 0x6f, 0x6c, 0x65, 0x74]);
}

proof fn lemma_keyword_brown()
    ensures
        spec_color_from_str(seq![0x62u8, 0x72, 0x6f, 0x77, 0x6e]) == Ok::<Color, ErrorView>(
            Color { red: 165, green: 42, blue: 42, alpha: 255 },
        ),
{
    reveal(named_color);
    lemma_keyword_color(seq![0x62u8, 0x72, 0x6f, 0x77, 0x6e]);
}

proof fn lemma_keyword_burlywood()
    ensures
        spec_color_from_str(seq![0x62u8, 0x75, 0x72, 0x6c, 0x79, 0x77, 0x6f, 0x6f, 0x64]) == Ok::<Color, ErrorView>(
            Color { red: 222, green: 184, blue: 135, alpha: 255 },
        ),
{
    reveal(named_color);
    lemma_keyword_color(seq![0x62u8, 0x75, 0x72, 0x6c, 0x79, 0x77, 0x6f, 0x6f, 0x64]);
}

/// The CSS color keywords that start with `b`, and their colors.
pub proof fn law_color_keywords_b()
    ensures
        // beige
        spec_color_from_str(seq![0x62u8, 0x65, 0x69, 0x67, 0x65]) == Ok::<Color, ErrorView>(
            Color { red: 245, green: 245, blue: 220, alpha: 255 },
        ),
        // bisque
        spec_color_from_str(seq![0x62u8, 0x69, 0x73, 0x71, 0x75, 0x65]) == Ok::<Color, ErrorView>(
            Color { red: 255, green: 228, blue: 196, alpha: 255 },
        ),
        // black
        spec_color_from_str(seq![0x62u8, 0x6c, 0x61, 0x63, 0x6b]) == Ok::<Color, ErrorView>(
            Color { red: 0, green: 0, blue: 0, alpha: 255 },
        ),
        // blanchedalmond
        spec_color_from_str(seq![0x62u8, 0x6c, 0x61, 0x6e, 0x63, 0x68, 0x65, 0x64, 0x61, 0x6c, 0x6d, 0x6f, 0x6e, 0x64]) == Ok::<Color, ErrorView>(
            Color { red: 255, green: 235, blue: 205, alpha: 255 },
        ),
        // blue
        spec_color_from_str(seq![0x62u8, 0x6c, 0x75, 0x65]) == Ok::<Color, ErrorView>(
            Color { red: 0, green: 0, blue: 255, alpha: 255 },
        ),
        // blueviolet
        spec_color_from_str(seq![0x62u8, 0x6c, 0x75, 0x65, 0x76, 0x69, 0x6f, 0x6c, 0x65, 0x74]) == Ok::<Color, ErrorView>(
            Color { red: 138, green: 43, blue: 226, alpha: 255 },
        ),
        // brown
        spec_color_from_str(seq![0x62u8, 0x72, 0x6f, 0x77, 0x6e]) == Ok::<Color, ErrorView>(
            Color { red: 165, green: 42, blue: 42, alpha: 255 },
        ),
        // burlywood
        spec_color_from_str(seq![0x62u8, 0x75, 0x72, 0x6c, 0x79, 0x77, 0x6f, 0x6f, 0x64]) == Ok::<Color, ErrorView>(
            Color { red: 222, green: 184, blue: 135, alpha: 255 },
        ),
{
    lemma_keyword_beige();
    lemma_keyword_bisque();
    lemma_keyword_black();
    lemma_keyword_blanchedalmond();
    lemma_keyword_blue();
    lemma_keyword_blueviolet();
    lemma_keyword_brown();
    lemma_keyword_burlywood();
}

proof fn lemma_keyword_cadetblue()
    ensures
        spec_color_from_str(seq![0x63u8, 0x61, 0x64, 0x65, 0x74, 0x62, 0x6c, 0x75, 0x65]) == Ok::<Color, ErrorView>(
            Color { red: 95, green: 158, blue: 160, alpha: 255 },
        ),
{
    reveal(named_color);
    lemma_keyword_color(seq![0x63u8, 0x61, 0x64, 0x65, 0x74, 0x62, 0x6c, 0x75, 0x65]);
}

proof fn lemma_keyword_chartreuse()
    ensures
        spec_color_from_str(seq![0x63u8, 0x68, 0x61, 0x72, 0x74, 0x72, 0x65, 0x75, 0x73, 0x65]) == Ok::<Color, ErrorView>(
            Color { red: 127, green: 255, blue: 0, alpha: 255 },
        ),
{
    reveal(named_color);
    lemma_keyword_color(seq![0x63u8, 0x68, 0x61, 0x72, 0x74, 0x72, 0x65, 0x75, 0x73, 0x65]);
}

proof fn lemma_keyword_chocolate()
    ensures
        spec_color_from_str(seq![0x63u8, 0x68, 0x6f, 0x63, 0x6f, 0x6c, 0x61, 0x74, 0x65]) == Ok::<Color, ErrorView>(
            Color { red: 210, green: 105, blue: 30, alpha: 255 },
        ),
{
    reveal(named_color);
    lemma_keyword_color(seq![0x63u8, 0x68, 0x6f, 0x63, 0x6f, 0x6c, 0x61, 0x74, 0x65]);
}

proof fn lemma_keyword_coral()
    ensures
        spec_color_from_str(seq![0x63u8, 0x6f, 0x72, 0x61, 0x6c]) == Ok::<Color, ErrorView>(
            Color { red: 255, green: 127, blue: 80, alpha: 255 },
        ),
{
    reveal(named_color);
    lemma_keyword_color(seq![0x63u8, 0x6f, 0x72, 0x61, 0x6c]);
}

proof fn lemma_keyword_cornflowerblue()
    ensures
        spec_color_from_str(seq![0x63u8, 0x6f, 0x72, 0x6e, 0x66, 0x6c, 0x6f, 0x77, 0x65, 0x72, 0x62, 0x6c, 0x75, 0x65]) == Ok::<Color, ErrorView>(
            Color { red: 100, green: 149, blue: 237, alpha: 255 },
        ),
{
    reveal(named_color);
    lemma_keyword_color(seq![0x63u8, 0x6f, 0x72, 0x6e, 0x66, 0x6c, 0x6f, 0x77, 0x65, 0x72, 0x62, 0x6c, 0x75, 0x65]);
}

proof fn lemma_keyword_cornsilk()
    ensures
        spec_color_from_str(seq![0x63u8, 0x6f, 0x72, 0x6e, 0x73, 0x69, 0x6c, 0x6b]) == Ok::<Color, ErrorView>(
            Color { red: 255, green: 248, blue: 220, alpha: 255 },
        ),
{
    reveal(named_color);
    lemma_keyword_color(seq![0x63u8, 0x6f, 0x72, 0x6e, 0x73, 0x69, 0x6c, 0x6b]);
}

proof fn lemma_keyword_crimson()
    ensures
        spec_color_from_str(seq![0x63u8, 0x72, 0x69, 0x6d, 0x73, 0x6f, 0x6e]) == Ok::<Color, ErrorView>(
            Color { red: 220, green: 20, blue: 60, alpha: 255 },
        ),
{
    reveal(named_color);
    lemma_keyword_color(seq![0x63u8, 0x72, 0x69, 0x6d, 0x73, 0x6f, 0x6e]);
}

proof fn lemma_keyword_cyan()
    ensures
        spec_color_from_str(seq![0x63u8, 0x79, 0x61, 0x6e]) == Ok::<Color, ErrorView>(
            Color { red: 0, green: 255, blue: 255, alpha: 255 },
        ),
{
    reveal(named_color);
    lemma_keyword_color(seq![0x63u8, 0x79, 0x61, 0x6e]);
}

/// The CSS color keywords that start with `c`, and their colors.
pub proof fn law_color_keywords_c()
    ensures
        // cadetblue
        spec_color_from_str(seq![0x63u8, 0x61, 0x64, 0x65, 0x74, 0x62, 0x6c, 0x75, 0x65]) == Ok::<Color, ErrorView>(
            Color { red: 95, green: 158, blue: 160, alpha: 255 },
        ),
        // chartreuse
        spec_color_from_str(seq![0x63u8, 0x68, 0x61, 0x72, 0x74, 0x72, 0x65, 0x75, 0x73, 0x65]) == Ok::<Color, ErrorView>(
            Color { red: 127, green: 255, blue: 0, alpha: 255 },
        ),
        // chocolate
        spec_color_from_str(seq![0x63u8, 0x68, 0x6f, 0x63, 0x6f, 0x6c, 0x61, 0x74, 0x65]) == Ok::<Color, ErrorView>(
            Color { red: 210, green: 105, blue: 30, alpha: 255 },
        ),
        // coral
        spec_color_from_str(seq![0x63u8, 0x6f, 0x72, 0x61, 0x6c]) == Ok::<Color, ErrorView>(
            Color { red: 255, green: 127, blue: 80, alpha: 255 },
        ),
        // cornflowerblue
        spec_color_from_str(seq![0x63u8, 0x6f, 0x72, 0x6e, 0x66, 0x6c, 0x6f, 0x77, 0x65, 0x72, 0x62, 0x6c, 0x75, 0x65]) == Ok::<Color, ErrorView>(
            Color { red: 100, green: 149, blue: 237, alpha: 255 },
        ),
        // cornsilk
        spec_color_from_str(seq![0x63u8, 0x6f, 0x72, 0x6e, 0x73, 0x69, 0x6c, 0x6b]) == Ok::<Color, ErrorView>(
            Color { red: 255, green: 248, blue: 220, alpha: 255 },
        ),
        // crimson
        spec_color_from_str(seq![0x63u8, 0x72, 0x69, 0x6d, 0x73, 0x6f, 0x6e]) == Ok::<Color, ErrorView>(
            Color { red: 220, green: 20, blue: 60, alpha: 255 },
        ),
        // cyan
        spec_color_from_str(seq![0x63u8, 0x79, 0x61, 0x6e]) == Ok::<Color, ErrorView>(
            Color { red: 0, green: 255, blue: 255, alpha: 255 },
        ),
{
    lemma_keyword_cadetblue();
    lemma_keyword_chartreuse();
    lemma_keyword_chocolate();
    lemma_keyword_coral();
    lemma_keyword_cornflowerblue();
    lemma_keyword_cornsilk();
    lemma_keyword_crimson();
    lemma_keyword_cyan();
}

proof fn lemma_keyword_darkblue()
    ensures
        spec_color_from_str(seq![0x64u8, 0x61, 0x72, 0x6b, 0x62, 0x6c, 0x75, 0x65]) == Ok::<Color, ErrorView>(
            Color { red: 0, green: 0, blue: 139, alpha: 255 },
        ),
{
    reveal(named_color);
    lemma_keyword_color(seq![0x64u8, 0x61, 0x72, 0x6b, 0x62, 0x6c, 0x75, 0x65]);
}

proof fn lemma_keyword_darkcyan()
    ensures
        spec_color_from_str(seq![0x64u8, 0x61, 0x72, 0x6b, 0x63, 0x79, 0x61, 0x6e]) == Ok::<Color, ErrorView>(
            Color { red: 0, green: 139, blue: 139, alpha: 255 },
        ),
{
    reveal(named_color);
    lemma_keyword_color(seq![0x64u8, 0x61, 0x72, 0x6b, 0x63, 0x79, 0x61, 0x6e]);
}

proof fn lemma_keyword_darkgoldenrod()
    ensures
        spec_color_from_str(seq![0x64u8, 0x61, 0x72, 0x6b, 0x67, 0x6f, 0x6c, 0x64, 0x65, 0x6e, 0x72, 0x6f, 0x64]) == Ok::<Color, ErrorView>(
            Color { red: 184, green: 134, blue: 11, alpha: 255 },
        ),
{
    reveal(named_color);
    lemma_keyword_color(seq![0x64u8, 0x61, 0x72, 0x6b, 0x67, 0x6f, 0x6c, 0x64, 0x65, 0x6e, 0x72, 0x6f, 0x64]);
}

proof fn lemma_keyword_darkgray()
    ensures
        spec_color_from_str(seq![0x64u8, 0x61, 0x72, 0x6b, 0x67, 0x72, 0x61, 0x79]) == Ok::<Color, ErrorView>(
            Color { red: 169, green: 169, blue: 169, alpha: 255 },
        ),
{
    reveal(named_color);
    lemma_keyword_color(seq![0x64u8, 0x61, 0x72, 0x6b, 0x67, 0x72, 0x61, 0x79]);
}

proof fn lemma_keyword_darkgreen()
    ensures
        spec_color_from_str(seq![0x64u8, 0x61, 0x72, 0x6b, 0x67, 0x72, 0x65, 0x65, 0x6e]) == Ok::<Color, ErrorView>(
            Color { red: 0, green: 100, blue: 0, alpha: 255 },
        ),
{
    reveal(named_color);
    lemma_keyword_color(seq![0x64u8, 0x61, 0x72, 0x6b, 0x67, 0x72, 0x65, 0x65, 0x6e]);
}

proof fn lemma_keyword_darkgrey()
    ensures
        spec_color_from_str(seq![0x64u8, 0x61, 0x72, 0x6b, 0x67, 0x72, 0x65, 0x79]) == Ok::<Color, ErrorView>(
            Color { red: 169, green: 169, blue: 169, alpha: 255 },
        ),
{
    reveal(named_color);
    lemma_keyword_color(seq![0x64u8, 0x61, 0x72, 0x6b, 0x67, 0x72, 0x65, 0x79]);
}

proof fn lemma_keyword_darkkhaki()
    ensures
        spec_color_from_str(seq![0x64u8, 0x61, 0x72, 0x6b, 0x6b, 0x68, 0x61, 0x6b, 0x69]) == Ok::<Color, ErrorView>(
            Color { red: 189, green: 183, blue: 107, alpha: 255 },
        ),
{
    reveal(named_color);
    lemma_keyword_color(seq![0x64u8, 0x61, 0x72, 0x6b, 0x6b, 0x68, 0x61, 0x6b, 0x69]);
}

proof fn lemma_keyword_darkmagenta()
    ensures
        spec_color_from_str(seq![0x64u8, 0x61, 0x72, 0x6b, 0x6d, 0x61, 0x67, 0x65, 0x6e, 0x74, 0x61]) == Ok::<Color, ErrorView>(
            Color { red: 139, green: 0, blue: 139, alpha: 255 },
        ),
{
    reveal(named_color);
    lemma_keyword_color(seq![0x64u8, 0x61, 0x72, 0x6b, 0x6d, 0x61, 0x67, 0x65, 0x6e, 0x74, 0x61]);
}

proof fn lemma_keyword_darkolivegreen()
    ensures
        spec_color_from_str(seq![0x64u8, 0x61, 0x72, 0x6b, 0x6f, 0x6c, 0x69, 0x76, 0x65, 0x67, 0x72, 0x65, 0x65, 0x6e]) == Ok::<Color, ErrorView>(
            Color { red: 85, green: 107, blue: 47, alpha: 255 },
        ),
{
    reveal(named_color);
    lemma_keyword_color(seq![0x64u8, 0x61, 0x72, 0x6b, 0x6f, 0x6c, 0x69, 0x76, 0x65, 0x67, 0x72, 0x65, 0x65, 0x6e]);
}

proof fn lemma_keyword_darkorange()
    ensures
        spec_color_from_str(seq![0x64u8, 0x61, 0x72, 0x6b, 0x6f, 0x72, 0x61, 0x6e, 0x67, 0x65]) == Ok::<Color, ErrorView>(
            Color { red: 255, green: 140, blue: 0, alpha: 255 },
        ),
{
    reveal(named_color);
    lemma_keyword_color(seq![0x64u8, 0x61, 0x72, 0x6b, 0x6f, 0x72, 0x61, 0x6e, 0x67, 0x65]);
}

proof fn lemma_keyword_darkorchid()
    ensures
        spec_color_from_str(seq![0x64u8, 0x61, 0x72, 0x6b, 0x6f, 0x72, 0x63, 0x68, 0x69, 0x64]) == Ok::<Color, ErrorView>(
            Color { red: 153, green: 50, blue: 204, alpha: 255 },
        ),
{
    reveal(named_color);
    lemma_keyword_color(seq![0x64u8, 0x61, 0x72, 0x6b, 0x6f, 0x72, 0x63, 0x68, 0x69, 0x64]);
}

proof fn lemma_keyword_darkred()
    ensures
        spec_color_from_str(seq![0x64u8, 0x61, 0x72, 0x6b, 0x72, 0x65, 0x64]) == Ok::<Color, ErrorView>(
            Color { red: 139, green: 0, blue: 0, alpha: 255 },
        ),
{
    reveal(named_color);
    lemma_keyword_color(seq![0x64u8, 0x61, 0x72, 0x6b, 0x72, 0x65, 0x64]);
}

proof fn lemma_keyword_darksalmon()
    ensures
        spec_color_from_str(seq![0x64u8, 0x61, 0x72, 0x6b, 0x73, 0x61, 0x6c, 0x6d, 0x6f, 0x6e]) == Ok::<Color, ErrorView>(
            Color { red: 233, green: 150, blue: 122, alpha: 255 },
        ),
{
    reveal(named_color);
    lemma_keyword_color(seq![0x64u8, 0x61, 0x72, 0x6b, 0x73, 0x61, 0x6c, 0x6d, 0x6f, 0x6e]);
}

proof fn lemma_keyword_darkseagreen()
    ensures
        spec_color_from_str(seq![0x64u8, 0x61, 0x72, 0x6b, 0x73, 0x65, 0x61, 0x67, 0x72, 0x65, 0x65, 0x6e]) == Ok::<Color, ErrorView>(
            Color { red: 143, green: 188, blue: 143, alpha: 255 },
        ),
{
    reveal(named_color);
    lemma_keyword_color(seq![0x64u8, 0x61, 0x72, 0x6b, 0x73, 0x65, 0x61, 0x67, 0x72, 0x65, 0x65, 0x6e]);
}

proof fn lemma_keyword_darkslateblue()
    ensures
        spec_color_from_str(seq![0x64u8, 0x61, 0x72, 0x6b, 0x73, 0x6c, 0x61, 0x74, 0x65, 0x62, 0x6c, 0x75, 0x65]) == Ok::<Color, ErrorView>(
            Color { red: 72, green: 61, blue: 139, alpha: 255 },
        ),
{
    reveal(named_color);
    lemma_keyword_color(seq![0x64u8, 0x61, 0x72, 0x6b, 0x73, 0x6c, 0x61, 0x74, 0x65, 0x62, 0x6c, 0x75, 0x65]);
}

proof fn lemma_keyword_darkslategray()
    ensures
        spec_color_from_str(seq![0x64u8, 0x61, 0x72, 0x6b, 0x73, 0x6c, 0x61, 0x74, 0x65, 0x67, 0x72, 0x61, 0x79]) == Ok::<Color, ErrorView>(
            Color { red: 47, green: 79, blue: 79, alpha: 255 },
        ),
{
    reveal(named_color);
    lemma_keyword_color(seq![0x64u8, 0x61, 0x72, 0x6b, 0x73, 0x6c, 0x61, 0x74, 0x65, 0x67, 0x72, 0x61, 0x79]);
}

proof fn lemma_keyword_darkslategrey()
    ensures
        spec_color_from_str(seq![0x64u8, 0x61, 0x72, 0x6b, 0x73, 0x6c, 0x61, 0x74, 0x65, 0x67, 0x72, 0x65, 0x79]) == Ok::<Color, ErrorView>(
            Color { red: 47, green: 79, blue: 79, alpha: 255 },
        ),
{
    reveal(named_color);
    lemma_keyword_color(seq![0x64u8, 0x61, 0x72, 0x6b, 0x73, 0x6c, 0x61, 0x74, 0x65, 0x67, 0x72, 0x65, 0x79]);
}

proof fn lemma_keyword_darkturquoise()
    ensures
        spec_color_from_str(seq![0x64u8, 0x61, 0x72, 0x6b, 0x74, 0x75, 0x72, 0x71, 0x75, 0x6f, 0x69, 0x73, 0x65]) == Ok::<Color, ErrorView>(
            Color { red: 0, green: 206, blue: 209, alpha: 255 },
        ),
{
    reveal(named_color);
    lemma_keyword_color(seq![0x64u8, 0x61, 0x72, 0x6b, 0x74, 0x75, 0x72, 0x71, 0x75, 0x6f, 0x69, 0x73, 0x65]);
}

proof fn lemma_keyword_darkviolet()
    ensures
        spec_color_from_str(seq![0x64u8, 0x61, 0x72, 0x6b, 0x76, 0x69, 0x6f, 0x6c, 0x65, 0x74]) == Ok::<Color, ErrorView>(
            Color { red: 148, green: 0, blue: 211, alpha: 255 },
        ),
{
    reveal(named_color);
    lemma_keyword_color(seq![0x64u8, 0x61, 0x72, 0x6b, 0x76, 0x69, 0x6f, 0x6c, 0x65, 0x74]);
}

proof fn lemma_keyword_deeppink()
    ensures
        spec_color_from_str(seq![0x64u8, 0x65, 0x65, 0x70, 0x70, 0x69, 0x6e, 0x6b]) == Ok::<Color, ErrorView>(
            Color { red: 255, green: 20, blue: 147, alpha: 255 },
        ),
{
    reveal(named_color);
    lemma_keyword_color(seq![0x64u8, 0x65, 0x65, 0x70, 0x70, 0x69, 0x6e, 0x6b]);
}

proof fn lemma_keyword_deepskyblue()
    ensures
        spec_color_from_str(seq![0x64u8, 0x65, 0x65, 0x70, 0x73, 0x6b, 0x79, 0x62, 0x6c, 0x75, 0x65]) == Ok::<Color, ErrorView>(
            Color { red: 0, green: 191, blue: 255, alpha: 255 },
        ),
{
    reveal(named_color);
    lemma_keyword_color(seq![0x64u8, 0x65, 0x65, 0x70, 0x73, 0x6b, 0x79, 0x62, 0x6c, 0x75, 0x65]);
}

proof fn lemma_keyword_dimgray()
    ensures
        spec_color_from_str(seq![0x64u8, 0x69, 0x6d, 0x67, 0x72, 0x61, 0x79]) == Ok::<Color, ErrorView>(
            Color { red: 105, green: 105, blue: 105, alpha: 255 },
        ),
{
    reveal(named_color);
    lemma_keyword_color(seq![0x64u8, 0x69, 0x6d, 0x67, 0x72, 0x61, 0x79]);
}

proof fn lemma_keyword_dimgrey()
    ensures
        spec_color_from_str(seq![0x64u8, 0x69, 0x6d, 0x67, 0x72, 0x65, 0x79]) == Ok::<Color, ErrorView>(
            Color { red: 105, green: 105, blue: 105, alpha: 255 },
        ),
{
    reveal(named_color);
    lemma_keyword_color(seq![0x64u8, 0x69, 0x6d, 0x67, 0x72, 0x65, 0x79]);
}

proof fn lemma_keyword_dodgerblue()
    ensures
        spec_color_from_str(seq![0x64u8, 0x6f, 0x64, 0x67, 0x65, 0x72, 0x62, 0x6c, 0x75, 0x65]) == Ok::<Color, ErrorView>(
            Color { red: 30, green: 144, blue: 255, alpha: 255 },
        ),
{
    reveal(named_color);
    lemma_keyword_color(seq![0x64u8, 0x6f, 0x64, 0x67, 0x65, 0x72, 0x62, 0x6c, 0x75, 0x65]);
}

/// The CSS color keywords that start with `d`, and their colors.
pub proof fn law_color_keywords_d()
    ensures
        // darkblue
        spec_color_from_str(seq![0x64u8, 0x61, 0x72, 0x6b, 0x62, 0x6c, 0x75, 0x65]) == Ok::<Color, ErrorView>(
            Color { red: 0, green: 0, blue: 139, alpha: 255 },
        ),
        // darkcyan
        spec_color_from_str(seq![0x64u8, 0x61, 0x72, 0x6b, 0x63, 0x79, 0x61, 0x6e]) == Ok::<Color, ErrorView>(
            Color { red: 0, green: 139, blue: 139, alpha: 255 },
        ),
        // darkgoldenrod
        spec_color_from_str(seq![0x64u8, 0x61, 0x72, 0x6b, 0x67, 0x6f, 0x6c, 0x64, 0x65, 0x6e, 0x72, 0x6f, 0x64]) == Ok::<Color, ErrorView>(
            Color { red: 184, green: 134, blue: 11, alpha: 255 },
        ),
        // darkgray
        spec_color_from_str(seq![0x64u8, 0x61, 0x72, 0x6b, 0x67, 0x72, 0x61, 0x79]) == Ok::<Color, ErrorView>(
            Color { red: 169, green: 169, blue: 169, alpha: 255 },
        ),
        // darkgreen
        spec_color_from_str(seq![0x64u8, 0x61, 0x72, 0x6b, 0x67, 0x72, 0x65, 0x65, 0x6e]) == Ok::<Color, ErrorView>(
            Color { red: 0, green: 100, blue: 0, alpha: 255 },
        ),
        // darkgrey
        spec_color_from_str(seq![0x64u8, 0x61, 0x72, 0x6b, 0x67, 0x72, 0x65, 0x79]) == Ok::<Color, ErrorView>(
            Color { red: 169, green: 169, blue: 169, alpha: 255 },
        ),
        // darkkhaki
        spec_color_from_str(seq![0x64u8, 0x61, 0x72, 0x6b, 0x6b, 0x68, 0x61, 0x6b, 0x69]) == Ok::<Color, ErrorView>(
            Color { red: 189, green: 183, blue: 107, alpha: 255 },
        ),
        // darkmagenta
        spec_color_from_str(seq![0x64u8, 0x61, 0x72, 0x6b, 0x6d, 0x61, 0x67, 0x65, 0x6e, 0x74, 0x61]) == Ok::<Color, ErrorView>(
            Color { red: 139, green: 0, blue: 139, alpha: 255 },
        ),
        // darkolivegreen
        spec_color_from_str(seq![0x64u8, 0x61, 0x72, 0x6b, 0x6f, 0x6c, 0x69, 0x76, 0x65, 0x67, 0x72, 0x65, 0x65, 0x6e]) == Ok::<Color, ErrorView>(
            Color { red: 85, green: 107, blue: 47, alpha: 255 },
        ),
        // darkorange
        spec_color_from_str(seq![0x64u8, 0x61, 0x72, 0x6b, 0x6f, 0x72, 0x61, 0x6e, 0x67, 0x65]) == Ok::<Color, ErrorView>(
            Color { red: 255, green: 140, blue: 0, alpha: 255 },
        ),
        // darkorchid
        spec_color_from_str(seq![0x64u8, 0x61, 0x72, 0x6b, 0x6f, 0x72, 0x63, 0x68, 0x69, 0x64]) == Ok::<Color, ErrorView>(
            Color { red: 153, green: 50, blue: 204, alpha: 255 },
        ),
        // darkred
        spec_color_from_str(seq![0x64u8, 0x61, 0x72, 0x6b, 0x72, 0x65, 0x64]) == Ok::<Color, ErrorView>(
            Color { red: 139, green: 0, blue: 0, alpha: 255 },
        ),
        // darksalmon
        spec_color_from_str(seq![0x64u8, 0x61, 0x72, 0x6b, 0x73, 0x61, 0x6c, 0x6d, 0x6f, 0x6e]) == Ok::<Color, ErrorView>(
            Color { red: 233, green: 150, blue: 122, alpha: 255 },
        ),
        // darkseagreen
        spec_color_from_str(seq![0x64u8, 0x61, 0x72, 0x6b, 0x73, 0x65, 0x61, 0x67, 0x72, 0x65, 0x65, 0x6e]) == Ok::<Color, ErrorView>(
            Color { red: 143, green: 188, blue: 143, alpha: 255 },
        ),
        // darkslateblue
        spec_color_from_str(seq![0x64u8, 0x61, 0x72, 0x6b, 0x73, 0x6c, 0x61, 0x74, 0x65, 0x62, 0x6c, 0x75, 0x65]) == Ok::<Color, ErrorView>(
            Color { red: 72, green: 61, blue: 139, alpha: 255 },
        ),
        // darkslategray
        spec_color_from_str(seq![0x64u8, 0x61, 0x72, 0x6b, 0x73, 0x6c, 0x61, 0x74, 0x65, 0x67, 0x72, 0x61, 0x79]) == Ok::<Color, ErrorView>(
            Color { red: 47, green: 79, blue: 79, alpha: 255 },
        ),
        // darkslategrey
        spec_color_from_str(seq![0x64u8, 0x61, 0x72, 0x6b, 0x73, 0x6c, 0x61, 0x74, 0x65, 0x67, 0x72, 0x65, 0x79]) == Ok::<Color, ErrorView>(
            Color { red: 47, green: 79, blue: 79, alpha: 255 },
        ),
        // darkturquoise
        spec_color_from_str(seq![0x64u8, 0x61, 0x72, 0x6b, 0x74, 0x75, 0x72, 0x71, 0x75, 0x6f, 0x69, 0x73, 0x65]) == Ok::<Color, ErrorView>(
            Color { red: 0, green: 206, blue: 209, alpha: 255 },
        ),
        // darkviolet
        spec_color_from_str(seq![0x64u8, 0x61, 0x72, 0x6b, 0x76, 0x69, 0x6f, 0x6c, 0x65, 0x74]) == Ok::<Color, ErrorView>(
            Color { red: 148, green: 0, blue: 211, alpha: 255 },
        ),
        // deeppink
        spec_color_from_str(seq![0x64u8, 0x65, 0x65, 0x70, 0x70, 0x69, 0x6e, 0x6b]) == Ok::<Color, ErrorView>(
            Color { red: 255, green: 20, blue: 147, alpha: 255 },
        ),
        // deepskyblue
        spec_color_from_str(seq![0x64u8, 0x65, 0x65, 0x70, 0x73, 0x6b, 0x79, 0x62, 0x6c, 0x75, 0x65]) == Ok::<Color, ErrorView>(
            Color { red: 0, green: 191, blue: 255, alpha: 255 },
        ),
        // dimgray
        spec_color_from_str(seq![0x64u8, 0x69, 0x6d, 0x67, 0x72, 0x61, 0x79]) == Ok::<Color, ErrorView>(
            Color { red: 105, green: 105, blue: 105, alpha: 255 },
        ),
        // dimgrey
        spec_color_from_str(seq![0x64u8, 0x69, 0x6d, 0x67, 0x72, 0x65, 0x79]) == Ok::<Color, ErrorView>(
            Color { red: 105, green: 105, blue: 105, alpha: 255 },
        ),
        // dodgerblue
        spec_color_from_str(seq![0x64u8, 0x6f, 0x64, 0x67, 0x65, 0x72, 0x62, 0x6c, 0x75, 0x65]) == Ok::<Color, ErrorView>(
            Color { red: 30, green: 144, blue: 255, alpha: 255 },
        ),
{
    lemma_keyword_darkblue();
    lemma_keyword_darkcyan();
    lemma_keyword_darkgoldenrod();
    lemma_keyword_darkgray();
    lemma_keyword_darkgreen();
    lemma_keyword_darkgrey();
    lemma_keyword_darkkhaki();
    lemma_keyword_darkmagenta();
    lemma_keyword_darkolivegreen();
    lemma_keyword_darkorange();
    lemma_keyword_darkorchid();
    lemma_keyword_darkred();
    lemma_keyword_darksalmon();
    lemma_keyword_darkseagreen();
    lemma_keyword_darkslateblue();
    lemma_keyword_darkslategray();
    lemma_keyword_darkslategrey();
    lemma_keyword_darkturquoise();
    lemma_keyword_darkviolet();
    lemma_keyword_deeppink();
    lemma_keyword_deepskyblue();
    lemma_keyword_dimgray();
    lemma_keyword_dimgrey();
    lemma_keyword_dodgerblue();
}

proof fn lemma_keyword_firebrick()
    ensures
        spec_color_from_str(seq![0x66u8, 0x69, 0x72, 0x65, 0x62, 0x72, 0x69, 0x63, 0x6b]) == Ok::<Color, ErrorView>(
            Color { red: 178, green: 34, blue: 34, alpha: 255 },
        ),
{
    reveal(named_color);
    lemma_keyword_color(seq![0x66u8, 0x69, 0x72, 0x65, 0x62, 0x72, 0x69, 0x63, 0x6b]);
}

proof fn lemma_keyword_floralwhite()
    ensures
        spec_color_from_str(seq![0x66u8, 0x6c, 0x6f, 0x72, 0x61, 0x6c, 0x77, 0x68, 0x69, 0x74, 0x65]) == Ok::<Color, ErrorView>(
            Color { red: 255, green: 250, blue: 240, alpha: 255 },
        ),
{
    reveal(named_color);
    lemma_keyword_color(seq![0x66u8, 0x6c, 0x6f, 0x72, 0x61, 0x6c, 0x77, 0x68, 0x69, 0x74, 0x65]);
}

proof fn lemma_keyword_forestgreen()
    ensures
        spec_color_from_str(seq![0x66u8, 0x6f, 0x72, 0x65, 0x73, 0x74, 0x67, 0x72, 0x65, 0x65, 0x6e]) == Ok::<Color, ErrorView>(
            Color { red: 34, green: 139, blue: 34, alpha: 255 },
        ),
{
    reveal(named_color);
    lemma_keyword_color(seq![0x66u8, 0x6f, 0x72, 0x65, 0x73, 0x74, 0x67, 0x72, 0x65, 0x65, 0x6e]);
}

proof fn lemma_keyword_fuchsia()
    ensures
        spec_color_from_str(seq![0x66u8, 0x75, 0x63, 0x68, 0x73, 0x69, 0x61]) == Ok::<Color, ErrorView>(
            Color { red: 255, green: 0, blue: 255, alpha: 255 },
        ),
{
    reveal(named_color);
    lemma_keyword_color(seq![0x66u8, 0x75, 0x63, 0x68, 0x73, 0x69, 0x61]);
}

/// The CSS color keywords that start with `f`, and their colors.
pub proof fn law_color_keywords_f()
    ensures
        // firebrick
        spec_color_from_str(seq![0x66u8, 0x69, 0x72, 0x65, 0x62, 0x72, 0x69, 0x63, 0x6b]) == Ok::<Color, ErrorView>(
            Color { red: 178, green: 34, blue: 34, alpha: 255 },
        ),
        // floralwhite
        spec_color_from_str(seq![0x66u8, 0x6c, 0x6f, 0x72, 0x61, 0x6c, 0x77, 0x68, 0x69, 0x74, 0x65]) == Ok::<Color, ErrorView>(
            Color { red: 255, green: 250, blue: 240, alpha: 255 },
        ),
        // forestgreen
        spec_color_from_str(seq![0x66u8, 0x6f, 0x72, 0x65, 0x73, 0x74, 0x67, 0x72, 0x65, 0x65, 0x6e]) == Ok::<Color, ErrorView>(
            Color { red: 34, green: 139, blue: 34, alpha: 255 },
        ),
        // fuchsia
        spec_color_from_str(seq![0x66u8, 0x75, 0x63, 0x68, 0x73, 0x69, 0x61]) == Ok::<Color, ErrorView>(
            Color { red: 255, green: 0, blue: 255, alpha: 255 },
        ),
{
    lemma_keyword_firebrick();
    lemma_keyword_floralwhite();
    lemma_keyword_forestgreen();
    lemma_keyword_fuchsia();
}

proof fn lemma_keyword_gainsboro()
    ensures
        spec_color_from_str(seq![0x67u8, 0x61, 0x69, 0x6e, 0x73, 0x62, 0x6f, 0x72, 0x6f]) == Ok::<Color, ErrorView>(
            Color { red: 220, green: 220, blue: 220, alpha: 255 },
        ),
{
    reveal(named_color);
    lemma_keyword_color(seq![0x67u8, 0x61, 0x69, 0x6e, 0x73, 0x62, 0x6f, 0x72, 0x6f]);
}

proof fn lemma_keyword_ghostwhite()
    ensures
        spec_color_from_str(seq![0x67u8, 0x68, 0x6f, 0x73, 0x74, 0x77, 0x68, 0x69, 0x74, 0x65]) == Ok::<Color, ErrorView>(
            Color { red: 248, green: 248, blue: 255, alpha: 255 },
        ),
{
    reveal(named_color);
    lemma_keyword_color(seq![0x67u8, 0x68, 0x6f, 0x73, 0x74, 0x77, 0x68, 0x69, 0x74, 0x65]);
}

proof fn lemma_keyword_gold()
    ensures
        spec_color_from_str(seq![0x67u8, 0x6f, 0x6c, 0x64]) == Ok::<Color, ErrorView>(
            Color { red: 255, green: 215, blue: 0, alpha: 255 },
        ),
{
    reveal(named_color);
    lemma_keyword_color(seq![0x67u8, 0x6f, 0x6c, 0x64]);
}

proof fn lemma_keyword_goldenrod()
    ensures
        spec_color_from_str(seq![0x67u8, 0x6f, 0x6c, 0x64, 0x65, 0x6e, 0x72, 0x6f, 0x64]) == Ok::<Color, ErrorView>(
            Color { red: 218, green: 165, blue: 32, alpha: 255 },
        ),
{
    reveal(named_color);
    lemma_keyword_color(seq![0x67u8, 0x6f, 0x6c, 0x64, 0x65, 0x6e, 0x72, 0x6f, 0x64]);
}

proof fn lemma_keyword_gray()
    ensures
        spec_color_from_str(seq![0x67u8, 0x72, 0x61, 0x79]) == Ok::<Color, ErrorView>(
            Color { red: 128, green: 128, blue: 128, alpha: 255 },
        ),
{
    reveal(named_color);
    lemma_keyword_color(seq![0x67u8, 0x72, 0x61, 0x79]);
}

proof fn lemma_keyword_green()
    ensures
        spec_color_from_str(seq![0x67u8, 0x72, 0x65, 0x65, 0x6e]) == Ok::<Color, ErrorView>(
            Color { red: 0, green: 128, blue: 0, alpha: 255 },
        ),
{
    reveal(named_color);
    lemma_keyword_color(seq![0x67u8, 0x72, 0x65, 0x65, 0x6e]);
}

proof fn lemma_keyword_greenyellow()
    ensures
        spec_color_from_str(seq![0x67u8, 0x72, 0x65, 0x65, 0x6e, 0x79, 0x65, 0x6c, 0x6c, 0x6f, 0x77]) == Ok::<Color, ErrorView>(
            Color { red: 173, green: 255, blue: 47, alpha: 255 },
        ),
{
    reveal(named_color);
    lemma_keyword_color(seq![0x67u8, 0x72, 0x65, 0x65, 0x6e, 0x79, 0x65, 0x6c, 0x6c, 0x6f, 0x77]);
}

proof fn lemma_keyword_grey()
    ensures
        spec_color_from_str(seq![0x67u8, 0x72, 0x65, 0x79]) == Ok::<Color, ErrorView>(
            Color { red: 128, green: 128, blue: 128, alpha: 255 },
        ),
{
    reveal(named_color);
    lemma_keyword_color(seq![0x67u8, 0x72, 0x65, 0x79]);
}

/// The CSS color keywords that start with `g`, and their colors.
pub proof fn law_color_keywords_g()
    ensures
        // gainsboro
        spec_color_from_str(seq![0x67u8, 0x61, 0x69, 0x6e, 0x73, 0x62, 0x6f, 0x72, 0x6f]) == Ok::<Color, ErrorView>(
            Color { red: 220, green: 220, blue: 220, alpha: 255 },
        ),
        // ghostwhite
        spec_color_from_str(seq![0x67u8, 0x68, 0x6f, 0x73, 0x74, 0x77, 0x68, 0x69, 0x74, 0x65]) == Ok::<Color, ErrorView>(
            Color { red: 248, green: 248, blue: 255, alpha: 255 },
        ),
        // gold
        spec_color_from_str(seq![0x67u8, 0x6f, 0x6c, 0x64]) == Ok::<Color, ErrorView>(
            Color { red: 255, green: 215, blue: 0, alpha: 255 },
        ),
        // goldenrod
        spec_color_from_str(seq![0x67u8, 0x6f, 0x6c, 0x64, 0x65, 0x6e, 0x72, 0x6f, 0x64]) == Ok::<Color, ErrorView>(
            Color { red: 218, green: 165, blue: 32, alpha: 255 },
        ),
        // gray
        spec_color_from_str(seq![0x67u8, 0x72, 0x61, 0x79]) == Ok::<Color, ErrorView>(
            Color { red: 128, green: 128, blue: 128, alpha: 255 },
        ),
        // green
        spec_color_from_str(seq![0x67u8, 0x72, 0x65, 0x65, 0x6e]) == Ok::<Color, ErrorView>(
            Color { red: 0, green: 128, blue: 0, alpha: 255 },
        ),
        // greenyellow
        spec_color_from_str(seq![0x67u8, 0x72, 0x65, 0x65, 0x6e, 0x79, 0x65, 0x6c, 0x6c, 0x6f, 0x77]) == Ok::<Color, ErrorView>(
            Color { red: 173, green: 255, blue: 47, alpha: 255 },
        ),
        // grey
        spec_color_from_str(seq![0x67u8, 0x72, 0x65, 0x79]) == Ok::<Color, ErrorView>(
            Color { red: 128, green: 128, blue: 128, alpha: 255 },
        ),
{
    lemma_keyword_gainsboro();
    lemma_keyword_ghostwhite();
    lemma_keyword_gold();
    lemma_keyword_goldenrod();
    lemma_keyword_gray();
    lemma_keyword_green();
    lemma_keyword_greenyellow();
    lemma_keyword_grey();
}

proof fn lemma_keyword_honeydew()
    ensures
        spec_color_from_str(seq![0x68u8, 0x6f, 0x6e, 0x65, 0x79, 0x64, 0x65, 0x77]) == Ok::<Color, ErrorView>(
            Color { red: 240, green: 255, blue: 240, alpha: 255 },
        ),
{
    reveal(named_color);
    lemma_keyword_color(seq![0x68u8, 0x6f, 0x6e, 0x65, 0x79, 0x64, 0x65, 0x77]);
}

proof fn lemma_keyword_hotpink()
    ensures
        spec_color_from_str(seq![0x68u8, 0x6f, 0x74, 0x70, 0x69, 0x6e, 0x6b]) == Ok::<Color, ErrorView>(
            Color { red: 255, green: 105, blue: 180, alpha: 255 },
        ),
{
    reveal(named_color);
    lemma_keyword_color(seq![0x68u8, 0x6f, 0x74, 0x70, 0x69, 0x6e, 0x6b]);
}

/// The CSS color keywords that start with `h`, and their colors.
pub proof fn law_color_keywords_h()
    ensures
        // honeydew
        spec_color_from_str(seq![0x68u8, 0x6f, 0x6e, 0x65, 0x79, 0x64, 0x65, 0x77]) == Ok::<Color, ErrorView>(
            Color { red: 240, green: 255, blue: 240, alpha: 255 },
        ),
        // hotpink
        spec_color_from_str(seq![0x68u8, 0x6f, 0x74, 0x70, 0x69, 0x6e, 0x6b]) == Ok::<Color, ErrorView>(
            Color { red: 255, green: 105, blue: 180, alpha: 255 },
        ),
{
    lemma_keyword_honeydew();
    lemma_keyword_hotpink();
}

proof fn lemma_keyword_indianred()
    ensures
        spec_color_from_str(seq![0x69u8, 0x6e, 0x64, 0x69, 0x61, 0x6e, 0x72, 0x65, 0x64]) == Ok::<Color, ErrorView>(
            Color { red: 205, green: 92, blue: 92, alpha: 255 },
        ),
{
    reveal(named_color);
    lemma_keyword_color(seq![0x69u8, 0x6e, 0x64, 0x69, 0x61, 0x6e, 0x72, 0x65, 0x64]);
}

proof fn lemma_keyword_indigo()
    ensures
        spec_color_from_str(seq![0x69u8, 0x6e, 0x64, 0x69, 0x67, 0x6f]) == Ok::<Color, ErrorView>(
            Color { red: 75, green: 0, blue: 130, alpha: 255 },
        ),
{
    reveal(named_color);
    lemma_keyword_color(seq![0x69u8, 0x6e, 0x64, 0x69, 0x67, 0x6f]);
}

proof fn lemma_keyword_ivory()
    ensures
        spec_color_from_str(seq![0x69u8, 0x76, 0x6f, 0x72, 0x79]) == Ok::<Color, ErrorView>(
            Color { red: 255, green: 255, blue: 240, alpha: 255 },
        ),
{
    reveal(named_color);
    lemma_keyword_color(seq![0x69u8, 0x76, 0x6f, 0x72, 0x79]);
}

/// The CSS color keywords that start with `i`, and their colors.
pub proof fn law_color_keywords_i()
    ensures
        // indianred
        spec_color_from_str(seq![0x69u8, 0x6e, 0x64, 0x69, 0x61, 0x6e, 0x72, 0x65, 0x64]) == Ok::<Color, ErrorView>(
            Color { red: 205, green: 92, blue: 92, alpha: 255 },
        ),
        // indigo
        spec_color_from_str(seq![0x69u8, 0x6e, 0x64, 0x69, 0x67, 0x6f]) == Ok::<Color, ErrorView>(
            Color { red: 75, green: 0, blue: 130, alpha: 255 },
        ),
        // ivory
        spec_color_from_str(seq![0x69u8, 0x76, 0x6f, 0x72, 0x79]) == Ok::<Color, ErrorView>(
            Color { red: 255, green: 255, blue: 240, alpha: 255 },
        ),
{
    lemma_keyword_indianred();
    lemma_keyword_indigo();
    lemma_keyword_ivory();
}

proof fn lemma_keyword_khaki()
    ensures
        spec_color_from_str(seq![0x6bu8, 0x68, 0x61, 0x6b, 0x69]) == Ok::<Color, ErrorView>(
            Color { red: 240, green: 230, blue: 140, alpha: 255 },
        ),
{
    reveal(named_color);
    lemma_keyword_color(seq![0x6bu8, 0x68, 0x61, 0x6b, 0x69]);
}

/// The CSS color keywords that start with `k`, and their colors.
pub proof fn law_color_keywords_k()
    ensures
        // khaki
        spec_color_from_str(seq![0x6bu8, 0x68, 0x61, 0x6b, 0x69]) == Ok::<Color, ErrorView>(
            Color { red: 240, green: 230, blue: 140, alpha: 255 },
        ),
{
    lemma_keyword_khaki();
}

proof fn lemma_keyword_lavender()
    ensures
        spec_color_from_str(seq![0x6cu8, 0x61, 0x76, 0x65, 0x6e, 0x64, 0x65, 0x72]) == Ok::<Color, ErrorView>(
            Color { red: 230, green: 230, blue: 250, alpha: 255 },
        ),
{
    reveal(named_color);
    lemma_keyword_color(seq![0x6cu8, 0x61, 0x76, 0x65, 0x6e, 0x64, 0x65, 0x72]);
}

proof fn lemma_keyword_lavenderblush()
    ensures
        spec_color_from_str(seq![0x6cu8, 0x61, 0x76, 0x65, 0x6e, 0x64, 0x65, 0x72, 0x62, 0x6c, 0x75, 0x73, 0x68]) == Ok::<Color, ErrorView>(
            Color { red: 255, green: 240, blue: 245, alpha: 255 },
        ),
{
    reveal(named_color);
    lemma_keyword_color(seq![0x6cu8, 0x61, 0x76, 0x65, 0x6e, 0x64, 0x65, 0x72, 0x62, 0x6c, 0x75, 0x73, 0x68]);
}

proof fn lemma_keyword_lawngreen()
    ensures
        spec_color_from_str(seq![0x6cu8, 0x61, 0x77, 0x6e, 0x67, 0x72, 0x65, 0x65, 0x6e]) == Ok::<Color, ErrorView>(
            Color { red: 124, green: 252, blue: 0, alpha: 255 },
        ),
{
    reveal(named_color);
    lemma_keyword_color(seq![0x6cu8, 0x61, 0x77, 0x6e, 0x67, 0x72, 0x65, 0x65, 0x6e]);
}

proof fn lemma_keyword_lemonchiffon()
    ensures
        spec_color_from_str(seq![0x6cu8, 0x65, 0x6d, 0x6f, 0x6e, 0x63, 0x68, 0x69, 0x66, 0x66, 0x6f, 0x6e]) == Ok::<Color, ErrorView>(
            Color { red: 255, green: 250, blue: 205, alpha: 255 },
        ),
{
    reveal(named_color);
    lemma_keyword_color(seq![0x6cu8, 0x65, 0x6d, 0x6f, 0x6e, 0x63, 0x68, 0x69, 0x66, 0x66, 0x6f, 0x6e]);
}

proof fn lemma_keyword_lightblue()
    ensures
        spec_color_from_str(seq![0x6cu8, 0x69, 0x67, 0x68, 0x74, 0x62, 0x6c, 0x75, 0x65]) == Ok::<Color, ErrorView>(
            Color { red: 173, green: 216, blue: 230, alpha: 255 },
        ),
{
    reveal(named_color);
    lemma_keyword_color(seq![0x6cu8, 0x69, 0x67, 0x68, 0x74, 0x62, 0x6c, 0x75, 0x65]);
}

proof fn lemma_keyword_lightcoral()
    ensures
        spec_color_from_str(seq![0x6cu8, 0x69, 0x67, 0x68, 0x74, 0x63, 0x6f, 0x72, 0x61, 0x6c]) == Ok::<Color, ErrorView>(
            Color { red: 240, green: 128, blue: 128, alpha: 255 },
        ),
{
    reveal(named_color);
    lemma_keyword_color(seq![0x6cu8, 0x69, 0x67, 0x68, 0x74, 0x63, 0x6f, 0x72, 0x61, 0x6c]);
}

proof fn lemma_keyword_lightcyan()
    ensures
        spec_color_from_str(seq![0x6cu8, 0x69, 0x67, 0x68, 0x74, 0x63, 0x79, 0x61, 0x6e]) == Ok::<Color, ErrorView>(
            Color { red: 224, green: 255, blue: 255, alpha: 255 },
        ),
{
    reveal(named_color);
    lemma_keyword_color(seq![0x6cu8, 0x69, 0x67, 0x68, 0x74, 0x63, 0x79, 0x61, 0x6e]);
}

proof fn lemma_keyword_lightgoldenrodyellow()
    ensures
        spec_color_from_str(seq![0x6cu8, 0x69, 0x67, 0x68, 0x74, 0x67, 0x6f, 0x6c, 0x64, 0x65, 0x6e, 0x72, 0x6f, 0x64, 0x79, 0x65, 0x6c, 0x6c, 0x6f, 0x77]) == Ok::<Color, ErrorView>(
            Color { red: 250, green: 250, blue: 210, alpha: 255 },
        ),
{
    reveal(named_color);
    lemma_keyword_color(seq![0x6cu8, 0x69, 0x67, 0x68, 0x74, 0x67, 0x6f, 0x6c, 0x64, 0x65, 0x6e, 0x72, 0x6f, 0x64, 0x79, 0x65, 0x6c, 0x6c, 0x6f, 0x77]);
}

proof fn lemma_keyword_lightgray()
    ensures
        spec_color_from_str(seq![0x6cu8, 0x69, 0x67, 0x68, 0x74, 0x67, 0x72, 0x61, 0x79]) == Ok::<Color, ErrorView>(
            Color { red: 211, green: 211, blue: 211, alpha: 255 },
        ),
{
    reveal(named_color);
    lemma_keyword_color(seq![0x6cu8, 0x69, 0x67, 0x68, 0x74, 0x67, 0x72, 0x61, 0x79]);
}

proof fn lemma_keyword_lightgreen()
    ensures
        spec_color_from_str(seq![0x6cu8, 0x69, 0x67, 0x68, 0x74, 0x67, 0x72, 0x65, 0x65, 0x6e]) == Ok::<Color, ErrorView>(
            Color { red: 144, green: 238, blue: 144, alpha: 255 },
        ),
{
    reveal(named_color);
    lemma_keyword_color(seq![0x6cu8, 0x69, 0x67, 0x68, 0x74, 0x67, 0x72, 0x65, 0x65, 0x6e]);
}

proof fn lemma_keyword_lightgrey()
    ensures
        spec_color_from_str(seq![0x6cu8, 0x69, 0x67, 0x68, 0x74, 0x67, 0x72, 0x65, 0x79]) == Ok::<Color, ErrorView>(
            Color { red: 211, green: 211, blue: 211, alpha: 255 },
        ),
{
    reveal(named_color);
    lemma_keyword_color(seq![0x6cu8, 0x69, 0x67, 0x68, 0x74, 0x67, 0x72, 0x65, 0x79]);
}

proof fn lemma_keyword_lightpink()
    ensures
        spec_color_from_str(seq![0x6cu8, 0x69, 0x67, 0x68, 0x74, 0x70, 0x69, 0x6e, 0x6b]) == Ok::<Color, ErrorView>(
            Color { red: 255, green: 182, blue: 193, alpha: 255 },
        ),
{
    reveal(named_color);
    lemma_keyword_color(seq![0x6cu8, 0x69, 0x67, 0x68, 0x74, 0x70, 0x69, 0x6e, 0x6b]);
}

proof fn lemma_keyword_lightsalmon()
    ensures
        spec_color_from_str(seq![0x6cu8, 0x69, 0x67, 0x68, 0x74, 0x73, 0x61, 0x6c, 0x6d, 0x6f, 0x6e]) == Ok::<Color, ErrorView>(
            Color { red: 255, green: 160, blue: 122, alpha: 255 },
        ),
{
    reveal(named_color);
    lemma_keyword_color(seq![0x6cu8, 0x69, 0x67, 0x68, 0x74, 0x73, 0x61, 0x6c, 0x6d, 0x6f, 0x6e]);
}

proof fn lemma_keyword_lightseagreen()
    ensures
        spec_color_from_str(seq![0x6cu8, 0x69, 0x67, 0x68, 0x74, 0x73, 0x65, 0x61, 0x67, 0x72, 0x65, 0x65, 0x6e]) == Ok::<Color, ErrorView>(
            Color { red: 32, green: 178, blue: 170, alpha: 255 },
        ),
{
    reveal(named_color);
    lemma_keyword_color(seq![0x6cu8, 0x69, 0x67, 0x68, 0x74, 0x73, 0x65, 0x61, 0x67, 0x72, 0x65, 0x65, 0x6e]);
}

proof fn lemma_keyword_lightskyblue()
    ensures
        spec_color_from_str(seq![0x6cu8, 0x69, 0x67, 0x68, 0x74, 0x73, 0x6b, 0x79, 0x62, 0x6c, 0x75, 0x65]) == Ok::<Color, ErrorView>(
            Color { red: 135, green: 206, blue: 250, alpha: 255 },
        ),
{
    reveal(named_color);
    lemma_keyword_color(seq![0x6cu8, 0x69, 0x67, 0x68, 0x74, 0x73, 0x6b, 0x79, 0x62, 0x6c, 0x75, 0x65]);
}

proof fn lemma_keyword_lightslategray()
    ensures
        spec_color_from_str(seq![0x6cu8, 0x69, 0x67, 0x68, 0x74, 0x73, 0x6c, 0x61, 0x74, 0x65, 0x67, 0x72, 0x61, 0x79]) == Ok::<Color, ErrorView>(
            Color { red: 119, green: 136, blue: 153, alpha: 255 },
        ),
{
    reveal(named_color);
    lemma_keyword_color(seq![0x6cu8, 0x69, 0x67, 0x68, 0x74, 0x73, 0x6c, 0x61, 0x74, 0x65, 0x67, 0x72, 0x61, 0x79]);
}

proof fn lemma_keyword_lightslategrey()
    ensures
        spec_color_from_str(seq![0x6cu8, 0x69, 0x67, 0x68, 0x74, 0x73, 0x6c, 0x61, 0x74, 0x65, 0x67, 0x72, 0x65, 0x79]) == Ok::<Color, ErrorView>(
            Color { red: 119, green: 136, blue: 153, alpha: 255 },
        ),
{
    reveal(named_color);
    lemma_keyword_color(seq![0x6cu8, 0x69, 0x67, 0x68, 0x74, 0x73, 0x6c, 0x61, 0x74, 0x65, 0x67, 0x72, 0x65, 0x79]);
}

proof fn lemma_keyword_lightsteelblue()
    ensures
        spec_color_from_str(seq![0x6cu8, 0x69, 0x67, 0x68, 0x74, 0x73, 0x74, 0x65, 0x65, 0x6c, 0x62, 0x6c, 0x75, 0x65]) == Ok::<Color, ErrorView>(
            Color { red: 176, green: 196, blue: 222, alpha: 255 },
        ),
{
    reveal(named_color);
    lemma_keyword_color(seq![0x6cu8, 0x69, 0x67, 0x68, 0x74, 0x73, 0x74, 0x65, 0x65, 0x6c, 0x62, 0x6c, 0x75, 0x65]);
}

proof fn lemma_keyword_lightyellow()
    ensures
        spec_color_from_str(seq![0x6cu8, 0x69, 0x67, 0x68, 0x74, 0x79, 0x65, 0x6c, 0x6c, 0x6f, 0x77]) == Ok::<Color, ErrorView>(
            Color { red: 255, green: 255, blue: 224, alpha: 255 },
        ),
{
    reveal(named_color);
    lemma_keyword_color(seq![0x6cu8, 0x69, 0x67, 0x68, 0x74, 0x79, 0x65, 0x6c, 0x6c, 0x6f, 0x77]);
}

proof fn lemma_keyword_lime()
    ensures
        spec_color_from_str(seq![0x6cu8, 0x69, 0x6d, 0x65]) == Ok::<Color, ErrorView>(
            Color { red: 0, green: 255, blue: 0, alpha: 255 },
        ),
{
    reveal(named_color);
    lemma_keyword_color(seq![0x6cu8, 0x69, 0x6d, 0x65]);
}

proof fn lemma_keyword_limegreen()
    ensures
        spec_color_from_str(seq![0x6cu8, 0x69, 0x6d, 0x65, 0x67, 0x72, 0x65, 0x65, 0x6e]) == Ok::<Color, ErrorView>(
            Color { red: 50, green: 205, blue: 50, alpha: 255 },
        ),
{
    reveal(named_color);
    lemma_keyword_color(seq![0x6cu8, 0x69, 0x6d, 0x65, 0x67, 0x72, 0x65, 0x65, 0x6e]);
}

proof fn lemma_keyword_linen()
    ensures
        spec_color_from_str(seq![0x6cu8, 0x69, 0x6e, 0x65, 0x6e]) == Ok::<Color, ErrorView>(
            Color { red: 250, green: 240, blue: 230, alpha: 255 },
        ),
{
    reveal(named_color);
    lemma_keyword_color(seq![0x6cu8, 0x69, 0x6e, 0x65, 0x6e]);
}

/// The CSS color keywords that start with `l`, and their colors.
pub proof fn law_color_keywords_l()
    ensures
        // lavender
        spec_color_from_str(seq![0x6cu8, 0x61, 0x76, 0x65, 0x6e, 0x64, 0x65, 0x72]) == Ok::<Color, ErrorView>(
            Color { red: 230, green: 230, blue: 250, alpha: 255 },
        ),
        // lavenderblush
        spec_color_from_str(seq![0x6cu8, 0x61, 0x76, 0x65, 0x6e, 0x64, 0x65, 0x72, 0x62, 0x6c, 0x75, 0x73, 0x68]) == Ok::<Color, ErrorView>(
            Color { red: 255, green: 240, blue: 245, alpha: 255 },
        ),
        // lawngreen
        spec_color_from_str(seq![0x6cu8, 0x61, 0x77, 0x6e, 0x67, 0x72, 0x65, 0x65, 0x6e]) == Ok::<Color, ErrorView>(
            Color { red: 124, green: 252, blue: 0, alpha: 255 },
        ),
        // lemonchiffon
        spec_color_from_str(seq![0x6cu8, 0x65, 0x6d, 0x6f, 0x6e, 0x63, 0x68, 0x69, 0x66, 0x66, 0x6f, 0x6e]) == Ok::<Color, ErrorView>(
            Color { red: 255, green: 250, blue: 205, alpha: 255 },
        ),
        // lightblue
        spec_color_from_str(seq![0x6cu8, 0x69, 0x67, 0x68, 0x74, 0x62, 0x6c, 0x75, 0x65]) == Ok::<Color, ErrorView>(
            Color { red: 173, green: 216, blue: 230, alpha: 255 },
        ),
        // lightcoral
        spec_color_from_str(seq![0x6cu8, 0x69, 0x67, 0x68, 0x74, 0x63, 0x6f, 0x72, 0x61, 0x6c]) == Ok::<Color, ErrorView>(
            Color { red: 240, green: 128, blue: 128, alpha: 255 },
        ),
        // lightcyan
        spec_color_from_str(seq![0x6cu8, 0x69, 0x67, 0x68, 0x74, 0x63, 0x79, 0x61, 0x6e]) == Ok::<Color, ErrorView>(
            Color { red: 224, green: 255, blue: 255, alpha: 255 },
        ),
        // lightgoldenrodyellow
        spec_color_from_str(seq![0x6cu8, 0x69, 0x67, 0x68, 0x74, 0x67, 0x6f, 0x6c, 0x64, 0x65, 0x6e, 0x72, 0x6f, 0x64, 0x79, 0x65, 0x6c, 0x6c, 0x6f, 0x77]) == Ok::<Color, ErrorView>(
            Color { red: 250, green: 250, blue: 210, alpha: 255 },
        ),
        // lightgray
        spec_color_from_str(seq![0x6cu8, 0x69, 0x67, 0x68, 0x74, 0x67, 0x72, 0x61, 0x79]) == Ok::<Color, ErrorView>(
            Color { red: 211, green: 211, blue: 211, alpha: 255 },
        ),
        // lightgreen
        spec_color_from_str(seq![0x6cu8, 0x69, 0x67, 0x68, 0x74, 0x67, 0x72, 0x65, 0x65, 0x6e]) == Ok::<Color, ErrorView>(
            Color { red: 144, green: 238, blue: 144, alpha: 255 },
        ),
        // lightgrey
        spec_color_from_str(seq![0x6cu8, 0x69, 0x67, 0x68, 0x74, 0x67, 0x72, 0x65, 0x79]) == Ok::<Color, ErrorView>(
            Color { red: 211, green: 211, blue: 211, alpha: 255 },
        ),
        // lightpink
        spec_color_from_str(seq![0x6cu8, 0x69, 0x67, 0x68, 0x74, 0x70, 0x69, 0x6e, 0x6b]) == Ok::<Color, ErrorView>(
            Color { red: 255, green: 182, blue: 193, alpha: 255 },
        ),
        // lightsalmon
        spec_color_from_str(seq![0x6cu8, 0x69, 0x67, 0x68, 0x74, 0x73, 0x61, 0x6c, 0x6d, 0x6f, 0x6e]) == Ok::<Color, ErrorView>(
            Color { red: 255, green: 160, blue: 122, alpha: 255 },
        ),
        // lightseagreen
        spec_color_from_str(seq![0x6cu8, 0x69, 0x67, 0x68, 0x74, 0x73, 0x65, 0x61, 0x67, 0x72, 0x65, 0x65, 0x6e]) == Ok::<Color, ErrorView>(
            Color { red: 32, green: 178, blue: 170, alpha: 255 },
        ),
        // lightskyblue
        spec_color_from_str(seq![0x6cu8, 0x69, 0x67, 0x68, 0x74, 0x73, 0x6b, 0x79, 0x62, 0x6c, 0x75, 0x65]) == Ok::<Color, ErrorView>(
            Color { red: 135, green: 206, blue: 250, alpha: 255 },
        ),
        // lightslategray
        spec_color_from_str(seq![0x6cu8, 0x69, 0x67, 0x68, 0x74, 0x73, 0x6c, 0x61, 0x74, 0x65, 0x67, 0x72, 0x61, 0x79]) == Ok::<Color, ErrorView>(
            Color { red: 119, green: 136, blue: 153, alpha: 255 },
        ),
        // lightslategrey
        spec_color_from_str(seq![0x6cu8, 0x69, 0x67, 0x68, 0x74, 0x73, 0x6c, 0x61, 0x74, 0x65, 0x67, 0x72, 0x65, 0x79]) == Ok::<Color, ErrorView>(
            Color { red: 119, green: 136, blue: 153, alpha: 255 },
        ),
        // lightsteelblue
        spec_color_from_str(seq![0x6cu8, 0x69, 0x67, 0x68, 0x74, 0x73, 0x74, 0x65, 0x65, 0x6c, 0x62, 0x6c, 0x75, 0x65]) == Ok::<Color, ErrorView>(
            Color { red: 176, green: 196, blue: 222, alpha: 255 },
        ),
        // lightyellow
        spec_color_from_str(seq![0x6cu8, 0x69, 0x67, 0x68, 0x74, 0x79, 0x65, 0x6c, 0x6c, 0x6f, 0x77]) == Ok::<Color, ErrorView>(
            Color { red: 255, green: 255, blue: 224, alpha: 255 },
        ),
        // lime
        spec_color_from_str(seq![0x6cu8, 0x69, 0x6d, 0x65]) == Ok::<Color, ErrorView>(
            Color { red: 0, green: 255, blue: 0, alpha: 255 },
        ),
        // limegreen
        spec_color_from_str(seq![0x6cu8, 0x69, 0x6d, 0x65, 0x67, 0x72, 0x65, 0x65, 0x6e]) == Ok::<Color, ErrorView>(
            Color { red: 50, green: 205, blue: 50, alpha: 255 },
        ),
        // linen
        spec_color_from_str(seq![0x6cu8, 0x69, 0x6e, 0x65, 0x6e]) == Ok::<Color, ErrorView>(
            Color { red: 250, green: 240, blue: 230, alpha: 255 },
        ),
{
    lemma_keyword_lavender();
    lemma_keyword_lavenderblush();
    lemma_keyword_lawngreen();
    lemma_keyword_lemonchiffon();
    lemma_keyword_lightblue();
    lemma_keyword_lightcoral();
    lemma_keyword_lightcyan();
    lemma_keyword_lightgoldenrodyellow();
    lemma_keyword_lightgray();
    lemma_keyword_lightgreen();
    lemma_keyword_lightgrey();
    lemma_keyword_lightpink();
    lemma_keyword_lightsalmon();
    lemma_keyword_lightseagreen();
    lemma_keyword_lightskyblue();
    lemma_keyword_lightslategray();
    lemma_keyword_lightslategrey();
    lemma_keyword_lightsteelblue();
    lemma_keyword_lightyellow();
    lemma_keyword_lime();
    lemma_keyword_limegreen();
    lemma_keyword_linen();
}

proof fn lemma_keyword_magenta()
    ensures
        spec_color_from_str(seq![0x6du8, 0x61, 0x67, 0x65, 0x6e, 0x74, 0x61]) == Ok::<Color, ErrorView>(
            Color { red: 255, green: 0, blue: 255, alpha: 255 },
        ),
{
    reveal(named_color);
    lemma_keyword_color(seq![0x6du8, 0x61, 0x67, 0x65, 0x6e, 0x74, 0x61]);
}

proof fn lemma_keyword_maroon()
    ensures
        spec_color_from_str(seq![0x6du8, 0x61, 0x72, 0x6f, 0x6f, 0x6e]) == Ok::<Color, ErrorView>(
            Color { red: 128, green: 0, blue: 0, alpha: 255 },
        ),
{
    reveal(named_color);
    lemma_keyword_color(seq![0x6du8, 0x61, 0x72, 0x6f, 0x6f, 0x6e]);
}

proof fn lemma_keyword_mediumaquamarine()
    ensures
        spec_color_from_str(seq![0x6du8, 0x65, 0x64, 0x69, 0x75, 0x6d, 0x61, 0x71, 0x75, 0x61, 0x6d, 0x61, 0x72, 0x69, 0x6e, 0x65]) == Ok::<Color, ErrorView>(
            Color { red: 102, green: 205, blue: 170, alpha: 255 },
        ),
{
    reveal(named_color);
    lemma_keyword_color(seq![0x6du8, 0x65, 0x64, 0x69, 0x75, 0x6d, 0x61, 0x71, 0x75, 0x61, 0x6d, 0x61, 0x72, 0x69, 0x6e, 0x65]);
}

proof fn lemma_keyword_mediumblue()
    ensures
        spec_color_from_str(seq![0x6du8, 0x65, 0x64, 0x69, 0x75, 0x6d, 0x62, 0x6c, 0x75, 0x65]) == Ok::<Color, ErrorView>(
            Color { red: 0, green: 0, blue: 205, alpha: 255 },
        ),
{
    reveal(named_color);
    lemma_keyword_color(seq![0x6du8, 0x65, 0x64, 0x69, 0x75, 0x6d, 0x62, 0x6c, 0x75, 0x65]);
}

proof fn lemma_keyword_mediumorchid()
    ensures
        spec_color_from_str(seq![0x6du8, 0x65, 0x64, 0x69, 0x75, 0x6d, 0x6f, 0x72, 0x63, 0x68, 0x69, 0x64]) == Ok::<Color, ErrorView>(
            Color { red: 186, green: 85, blue: 211, alpha: 255 },
        ),
{
    reveal(named_color);
    lemma_keyword_color(seq![0x6du8, 0x65, 0x64, 0x69, 0x75, 0x6d, 0x6f, 0x72, 0x63, 0x68, 0x69, 0x64]);
}

proof fn lemma_keyword_mediumpurple()
    ensures
        spec_color_from_str(seq![0x6du8, 0x65, 0x64, 0x69, 0x75, 0x6d, 0x70, 0x75, 0x72, 0x70, 0x6c, 0x65]) == Ok::<Color, ErrorView>(
            Color { red: 147, green: 112, blue: 219, alpha: 255 },
        ),
{
    reveal(named_color);
    lemma_keyword_color(seq![0x6du8, 0x65, 0x64, 0x69, 0x75, 0x6d, 0x70, 0x75, 0x72, 0x70, 0x6c, 0x65]);
}

proof fn lemma_keyword_mediumseagreen()
    ensures
        spec_color_from_str(seq![0x6du8, 0x65, 0x64, 0x69, 0x75, 0x6d, 0x73, 0x65, 0x61, 0x67, 0x72, 0x65, 0x65, 0x6e]) == Ok::<Color, ErrorView>(
            Color { red: 60, green: 179, blue: 113, alpha: 255 },
        ),
{
    reveal(named_color);
    lemma_keyword_color(seq![0x6du8, 0x65, 0x64, 0x69, 0x75, 0x6d, 0x73, 0x65, 0x61, 0x67, 0x72, 0x65, 0x65, 0x6e]);
}

proof fn lemma_keyword_mediumslateblue()
    ensures
        spec_color_from_str(seq![0x6du8, 0x65, 0x64, 0x69, 0x75, 0x6d, 0x73, 0x6c, 0x61, 0x74, 0x65, 0x62, 0x6c, 0x75, 0x65]) == Ok::<Color, ErrorView>(
            Color { red: 123, green: 104, blue: 238, alpha: 255 },
        ),
{
    reveal(named_color);
    lemma_keyword_color(seq![0x6du8, 0x65, 0x64, 0x69, 0x75, 0x6d, 0x73, 0x6c, 0x61, 0x74, 0x65, 0x62, 0x6c, 0x75, 0x65]);
}

proof fn lemma_keyword_mediumspringgreen()
    ensures
        spec_color_from_str(seq![0x6du8, 0x65, 0x64, 0x69, 0x75, 0x6d, 0x73, 0x70, 0x72, 0x69, 0x6e, 0x67, 0x67, 0x72, 0x65, 0x65, 0x6e]) == Ok::<Color, ErrorView>(
            Color { red: 0, green: 250, blue: 154, alpha: 255 },
        ),
{
    reveal(named_color);
    lemma_keyword_color(seq![0x6du8, 0x65, 0x64, 0x69, 0x75, 0x6d, 0x73, 0x70, 0x72, 0x69, 0x6e, 0x67, 0x67, 0x72, 0x65, 0x65, 0x6e]);
}

proof fn lemma_keyword_mediumturquoise()
    ensures
        spec_color_from_str(seq![0x6du8, 0x65, 0x64, 0x69, 0x75, 0x6d, 0x74, 0x75, 0x72, 0x71, 0x75, 0x6f, 0x69, 0x73, 0x65]) == Ok::<Color, ErrorView>(
            Color { red: 72, green: 209, blue: 204, alpha: 255 },
        ),
{
    reveal(named_color);
    lemma_keyword_color(seq![0x6du8, 0x65, 0x64, 0x69, 0x75, 0x6d, 0x74, 0x75, 0x72, 0x71, 0x75, 0x6f, 0x69, 0x73, 0x65]);
}

proof fn lemma_keyword_mediumvioletred()
    ensures
        spec_color_from_str(seq![0x6du8, 0x65, 0x64, 0x69, 0x75, 0x6d, 0x76, 0x69, 0x6f, 0x6c, 0x65, 0x74, 0x72, 0x65, 0x64]) == Ok::<Color, ErrorView>(
            Color { red: 199, green: 21, blue: 133, alpha: 255 },
        ),
{
    reveal(named_color);
    lemma_keyword_color(seq![0x6du8, 0x65, 0x64, 0x69, 0x75, 0x6d, 0x76, 0x69, 0x6f, 0x6c, 0x65, 0x74, 0x72, 0x65, 0x64]);
}

proof fn lemma_keyword_midnightblue()
    ensures
        spec_color_from_str(seq![0x6du8, 0x69, 0x64, 0x6e, 0x69, 0x67, 0x68, 0x74, 0x62, 0x6c, 0x75, 0x65]) == Ok::<Color, ErrorView>(
            Color { red: 25, green: 25, blue: 112, alpha: 255 },
        ),
{
    reveal(named_color);
    lemma_keyword_color(seq![0x6du8, 0x69, 0x64, 0x6e, 0x69, 0x67, 0x68, 0x74, 0x62, 0x6c, 0x75, 0x65]);
}

proof fn lemma_keyword_mintcream()
    ensures
        spec_color_from_str(seq![0x6du8, 0x69, 0x6e, 0x74, 0x63, 0x72, 0x65, 0x61, 0x6d]) == Ok::<Color, ErrorView>(
            Color { red: 245, green: 255, blue: 250, alpha: 255 },
        ),
{
    reveal(named_color);
    lemma_keyword_color(seq![0x6du8, 0x69, 0x6e, 0x74, 0x63, 0x72, 0x65, 0x61, 0x6d]);
}

proof fn lemma_keyword_mistyrose()
    ensures
        spec_color_from_str(seq![0x6du8, 0x69, 0x73, 0x74, 0x79, 0x72, 0x6f, 0x73, 0x65]) == Ok::<Color, ErrorView>(
            Color { red: 255, green: 228, blue: 225, alpha: 255 },
        ),
{
    reveal(named_color);
    lemma_keyword_color(seq![0x6du8, 0x69, 0x73, 0x74, 0x79, 0x72, 0x6f, 0x73, 0x65]);
}

proof fn lemma_keyword_moccasin()
    ensures
        spec_color_from_str(seq![0x6du8, 0x6f, 0x63, 0x63, 0x61, 0x73, 0x69, 0x6e]) == Ok::<Color, ErrorView>(
            Color { red: 255, green: 228, blue: 181, alpha: 255 },
        ),
{
    reveal(named_color);
    lemma_keyword_color(seq![0x6du8, 0x6f, 0x63, 0x63, 0x61, 0x73, 0x69, 0x6e]);
}

/// The CSS color keywords that start with `m`, and their colors.
pub proof fn law_color_keywords_m()
    ensures
        // magenta
        spec_color_from_str(seq![0x6du8, 0x61, 0x67, 0x65, 0x6e, 0x74, 0x61]) == Ok::<Color, ErrorView>(
            Color { red: 255, green: 0, blue: 255, alpha: 255 },
        ),
        // maroon
        spec_color_from_str(seq![0x6du8, 0x61, 0x72, 0x6f, 0x6f, 0x6e]) == Ok::<Color, ErrorView>(
            Color { red: 128, green: 0, blue: 0, alpha: 255 },
        ),
        // mediumaquamarine
        spec_color_from_str(seq![0x6du8, 0x65, 0x64, 0x69, 0x75, 0x6d, 0x61, 0x71, 0x75, 0x61, 0x6d, 0x61, 0x72, 0x69, 0x6e, 0x65]) == Ok::<Color, ErrorView>(
            Color { red: 102, green: 205, blue: 170, alpha: 255 },
        ),
        // mediumblue
        spec_color_from_str(seq![0x6du8, 0x65, 0x64, 0x69, 0x75, 0x6d, 0x62, 0x6c, 0x75, 0x65]) == Ok::<Color, ErrorView>(
            Color { red: 0, green: 0, blue: 205, alpha: 255 },
        ),
        // mediumorchid
        spec_color_from_str(seq![0x6du8, 0x65, 0x64, 0x69, 0x75, 0x6d, 0x6f, 0x72, 0x63, 0x68, 0x69, 0x64]) == Ok::<Color, ErrorView>(
            Color { red: 186, green: 85, blue: 211, alpha: 255 },
        ),
        // mediumpurple
        spec_color_from_str(seq![0x6du8, 0x65, 0x64, 0x69, 0x75, 0x6d, 0x70, 0x75, 0x72, 0x70, 0x6c, 0x65]) == Ok::<Color, ErrorView>(
            Color { red: 147, green: 112, blue: 219, alpha: 255 },
        ),
        // mediumseagreen
        spec_color_from_str(seq![0x6du8, 0x65, 0x64, 0x69, 0x75, 0x6d, 0x73, 0x65, 0x61, 0x67, 0x72, 0x65, 0x65, 0x6e]) == Ok::<Color, ErrorView>(
            Color { red: 60, green: 179, blue: 113, alpha: 255 },
        ),
        // mediumslateblue
        spec_color_from_str(seq![0x6du8, 0x65, 0x64, 0x69, 0x75, 0x6d, 0x73, 0x6c, 0x61, 0x74, 0x65, 0x62, 0x6c, 0x75, 0x65]) == Ok::<Color, ErrorView>(
            Color { red: 123, green: 104, blue: 238, alpha: 255 },
        ),
        // mediumspringgreen
        spec_color_from_str(seq![0x6du8, 0x65, 0x64, 0x69, 0x75, 0x6d, 0x73, 0x70, 0x72, 0x69, 0x6e, 0x67, 0x67, 0x72, 0x65, 0x65, 0x6e]) == Ok::<Color, ErrorView>(
            Color { red: 0, green: 250, blue: 154, alpha: 255 },
        ),
        // mediumturquoise
        spec_color_from_str(seq![0x6du8, 0x65, 0x64, 0x69, 0x75, 0x6d, 0x74, 0x75, 0x72, 0x71, 0x75, 0x6f, 0x69, 0x73, 0x65]) == Ok::<Color, ErrorView>(
            Color { red: 72, green: 209, blue: 204, alpha: 255 },
        ),
        // mediumvioletred
        spec_color_from_str(seq![0x6du8, 0x65, 0x64, 0x69, 0x75, 0x6d, 0x76, 0x69, 0x6f, 0x6c, 0x65, 0x74, 0x72, 0x65, 0x64]) == Ok::<Color, ErrorView>(
            Color { red: 199, green: 21, blue: 133, alpha: 255 },
        ),
        // midnightblue
        spec_color_from_str(seq![0x6du8, 0x69, 0x64, 0x6e, 0x69, 0x67, 0x68, 0x74, 0x62, 0x6c, 0x75, 0x65]) == Ok::<Color, ErrorView>(
            Color { red: 25, green: 25, blue: 112, alpha: 255 },
        ),
        // mintcream
        spec_color_from_str(seq![0x6du8, 0x69, 0x6e, 0x74, 0x63, 0x72, 0x65, 0x61, 0x6d]) == Ok::<Color, ErrorView>(
            Color { red: 245, green: 255, blue: 250, alpha: 255 },
        ),
        // mistyrose
        spec_color_from_str(seq![0x6du8, 0x69, 0x73, 0x74, 0x79, 0x72, 0x6f, 0x73, 0x65]) == Ok::<Color, ErrorView>(
            Color { red: 255, green: 228, blue: 225, alpha: 255 },
        ),
        // moccasin
        spec_color_from_str(seq![0x6du8, 0x6f, 0x63, 0x63, 0x61, 0x73, 0x69, 0x6e]) == Ok::<Color, ErrorView>(
            Color { red: 255, green: 228, blue: 181, alpha: 255 },
        ),
{
    lemma_keyword_magenta();
    lemma_keyword_maroon();
    lemma_keyword_mediumaquamarine();
    lemma_keyword_mediumblue();
    lemma_keyword_mediumorchid();
    lemma_keyword_mediumpurple();
    lemma_keyword_mediumseagreen();
    lemma_keyword_mediumslateblue();
    lemma_keyword_mediumspringgreen();
    lemma_keyword_mediumturquoise();
    lemma_keyword_mediumvioletred();
    lemma_keyword_midnightblue();
    lemma_keyword_mintcream();
    lemma_keyword_mistyrose();
    lemma_keyword_moccasin();
}

proof fn lemma_keyword_navajowhite()
    ensures
        spec_color_from_str(seq![0x6eu8, 0x61, 0x76, 0x61, 0x6a, 0x6f, 0x77, 0x68, 0x69, 0x74, 0x65]) == Ok::<Color, ErrorView>(
            Color { red: 255, green: 222, blue: 173, alpha: 255 },
        ),
{
    reveal(named_color);
    lemma_keyword_color(seq![0x6eu8, 0x61, 0x76, 0x61, 0x6a, 0x6f, 0x77, 0x68, 0x69, 0x74, 0x65]);
}

proof fn lemma_keyword_navy()
    ensures
        spec_color_from_str(seq![0x6eu8, 0x61, 0x76, 0x79]) == Ok::<Color, ErrorView>(
            Color { red: 0, green: 0, blue: 128, alpha: 255 },
        ),
{
    reveal(named_color);
    lemma_keyword_color(seq![0x6eu8, 0x61, 0x76, 0x79]);
}

/// The CSS color keywords that start with `n`, and their colors.
pub proof fn law_color_keywords_n()
    ensures
        // navajowhite
        spec_color_from_str(seq![0x6eu8, 0x61, 0x76, 0x61, 0x6a, 0x6f, 0x77, 0x68, 0x69, 0x74, 0x65]) == Ok::<Color, ErrorView>(
            Color { red: 255, green: 222, blue: 173, alpha: 255 },
        ),
        // navy
        spec_color_from_str(seq![0x6eu8, 0x61, 0x76, 0x79]) == Ok::<Color, ErrorView>(
            Color { red: 0, green: 0, blue: 128, alpha: 255 },
        ),
{
    lemma_keyword_navajowhite();
    lemma_keyword_navy();
}

proof fn lemma_keyword_oldlace()
    ensures
        spec_color_from_str(seq![0x6fu8, 0x6c, 0x64, 0x6c, 0x61, 0x63, 0x65]) == Ok::<Color, ErrorView>(
            Color { red: 253, green: 245, blue: 230, alpha: 255 },
        ),
{
    reveal(named_color);
    lemma_keyword_color(seq![0x6fu8, 0x6c, 0x64, 0x6c, 0x61, 0x63, 0x65]);
}

proof fn lemma_keyword_olive()
    ensures
        spec_color_from_str(seq![0x6fu8, 0x6c, 0x69, 0x76, 0x65]) == Ok::<Color, ErrorView>(
            Color { red: 128, green: 128, blue: 0, alpha: 255 },
        ),
{
    reveal(named_color);
    lemma_keyword_color(seq![0x6fu8, 0x6c, 0x69, 0x76, 0x65]);
}

proof fn lemma_keyword_olivedrab()
    ensures
        spec_color_from_str(seq![0x6fu8, 0x6c, 0x69, 0x76, 0x65, 0x64, 0x72, 0x61, 0x62]) == Ok::<Color, ErrorView>(
            Color { red: 107, green: 142, blue: 35, alpha: 255 },
        ),
{
    reveal(named_color);
    lemma_keyword_color(seq![0x6fu8, 0x6c, 0x69, 0x76, 0x65, 0x64, 0x72, 0x61, 0x62]);
}

proof fn lemma_keyword_orange()
    ensures
        spec_color_from_str(seq![0x6fu8, 0x72, 0x61, 0x6e, 0x67, 0x65]) == Ok::<Color, ErrorView>(
            Color { red: 255, green: 165, blue: 0, alpha: 255 },
        ),
{
    reveal(named_color);
    lemma_keyword_color(seq![0x6fu8, 0x72, 0x61, 0x6e, 0x67, 0x65]);
}

proof fn lemma_keyword_orangered()
    ensures
        spec_color_from_str(seq![0x6fu8, 0x72, 0x61, 0x6e, 0x67, 0x65, 0x72, 0x65, 0x64]) == Ok::<Color, ErrorView>(
            Color { red: 255, green: 69, blue: 0, alpha: 255 },
        ),
{
    reveal(named_color);
    lemma_keyword_color(seq![0x6fu8, 0x72, 0x61, 0x6e, 0x67, 0x65, 0x72, 0x65, 0x64]);
}

proof fn lemma_keyword_orchid()
    ensures
        spec_color_from_str(seq![0x6fu8, 0x72, 0x63, 0x68, 0x69, 0x64]) == Ok::<Color, ErrorView>(
            Color { red: 218, green: 112, blue: 214, alpha: 255 },
        ),
{
    reveal(named_color);
    lemma_keyword_color(seq![0x6fu8, 0x72, 0x63, 0x68, 0x69, 0x64]);
}

/// The CSS color keywords that start with `o`, and their colors.
pub proof fn law_color_keywords_o()
    ensures
        // oldlace
        spec_color_from_str(seq![0x6fu8, 0x6c, 0x64, 0x6c, 0x61, 0x63, 0x65]) == Ok::<Color, ErrorView>(
            Color { red: 253, green: 245, blue: 230, alpha: 255 },
        ),
        // olive
        spec_color_from_str(seq![0x6fu8, 0x6c, 0x69, 0x76, 0x65]) == Ok::<Color, ErrorView>(
            Color { red: 128, green: 128, blue: 0, alpha: 255 },
        ),
        // olivedrab
        spec_color_from_str(seq![0x6fu8, 0x6c, 0x69, 0x76, 0x65, 0x64, 0x72, 0x61, 0x62]) == Ok::<Color, ErrorView>(
            Color { red: 107, green: 142, blue: 35, alpha: 255 },
        ),
        // orange
        spec_color_from_str(seq![0x6fu8, 0x72, 0x61, 0x6e, 0x67, 0x65]) == Ok::<Color, ErrorView>(
            Color { red: 255, green: 165, blue: 0, alpha: 255 },
        ),
        // orangered
        spec_color_from_str(seq![0x6fu8, 0x72, 0x61, 0x6e, 0x67, 0x65, 0x72, 0x65, 0x64]) == Ok::<Color, ErrorView>(
            Color { red: 255, green: 69, blue: 0, alpha: 255 },
        ),
        // orchid
        spec_color_from_str(seq![0x6fu8, 0x72, 0x63, 0x68, 0x69, 0x64]) == Ok::<Color, ErrorView>(
            Color { red: 218, green: 112, blue: 214, alpha: 255 },
        ),
{
    lemma_keyword_oldlace();
    lemma_keyword_olive();
    lemma_keyword_olivedrab();
    lemma_keyword_orange();
    lemma_keyword_orangered();
    lemma_keyword_orchid();
}

proof fn lemma_keyword_palegoldenrod()
    ensures
        spec_color_from_str(seq![0x70u8, 0x61, 0x6c, 0x65, 0x67, 0x6f, 0x6c, 0x64, 0x65, 0x6e, 0x72, 0x6f, 0x64]) == Ok::<Color, ErrorView>(
            Color { red: 238, green: 232, blue: 170, alpha: 255 },
        ),
{
    reveal(named_color);
    lemma_keyword_color(seq![0x70u8, 0x61, 0x6c, 0x65, 0x67, 0x6f, 0x6c, 0x64, 0x65, 0x6e, 0x72, 0x6f, 0x64]);
}

proof fn lemma_keyword_palegreen()
    ensures
        spec_color_from_str(seq![0x70u8, 0x61, 0x6c, 0x65, 0x67, 0x72, 0x65, 0x65, 0x6e]) == Ok::<Color, ErrorView>(
            Color { red: 152, green: 251, blue: 152, alpha: 255 },
        ),
{
    reveal(named_color);
    lemma_keyword_color(seq![0x70u8, 0x61, 0x6c, 0x65, 0x67, 0x72, 0x65, 0x65, 0x6e]);
}

proof fn lemma_keyword_paleturquoise()
    ensures
        spec_color_from_str(seq![0x70u8, 0x61, 0x6c, 0x65, 0x74, 0x75, 0x72, 0x71, 0x75, 0x6f, 0x69, 0x73, 0x65]) == Ok::<Color, ErrorView>(
            Color { red: 175, green: 238, blue: 238, alpha: 255 },
        ),
{
    reveal(named_color);
    lemma_keyword_color(seq![0x70u8, 0x61, 0x6c, 0x65, 0x74, 0x75, 0x72, 0x71, 0x75, 0x6f, 0x69, 0x73, 0x65]);
}

proof fn lemma_keyword_palevioletred()
    ensures
        spec_color_from_str(seq![0x70u8, 0x61, 0x6c, 0x65, 0x76, 0x69, 0x6f, 0x6c, 0x65, 0x74, 0x72, 0x65, 0x64]) == Ok::<Color, ErrorView>(
            Color { red: 219, green: 112, blue: 147, alpha: 255 },
        ),
{
    reveal(named_color);
    lemma_keyword_color(seq![0x70u8, 0x61, 0x6c, 0x65, 0x76, 0x69, 0x6f, 0x6c, 0x65, 0x74, 0x72, 0x65, 0x64]);
}

proof fn lemma_keyword_papayawhip()
    ensures
        spec_color_from_str(seq![0x70u8, 0x61, 0x70, 0x61, 0x79, 0x61, 0x77, 0x68, 0x69, 0x70]) == Ok::<Color, ErrorView>(
            Color { red: 255, green: 239, blue: 213, alpha: 255 },
        ),
{
    reveal(named_color);
    lemma_keyword_color(seq![0x70u8, 0x61, 0x70, 0x61, 0x79, 0x61, 0x77, 0x68, 0x69, 0x70]);
}

proof fn lemma_keyword_peachpuff()
    ensures
        spec_color_from_str(seq![0x70u8, 0x65, 0x61, 0x63, 0x68, 0x70, 0x75, 0x66, 0x66]) == Ok::<Color, ErrorView>(
            Color { red: 255, green: 218, blue: 185, alpha: 255 },
        ),
{
    reveal(named_color);
    lemma_keyword_color(seq![0x70u8, 0x65, 0x61, 0x63, 0x68, 0x70, 0x75, 0x66, 0x66]);
}

proof fn lemma_keyword_peru()
    ensures
        spec_color_from_str(seq![0x70u8, 0x65, 0x72, 0x75]) == Ok::<Color, ErrorView>(
            Color { red: 205, green: 133, blue: 63, alpha: 255 },
        ),
{
    reveal(named_color);
    lemma_keyword_color(seq![0x70u8, 0x65, 0x72, 0x75]);
}

proof fn lemma_keyword_pink()
    ensures
        spec_color_from_str(seq![0x70u8, 0x69, 0x6e, 0x6b]) == Ok::<Color, ErrorView>(
            Color { red: 255, green: 192, blue: 203, alpha: 255 },
        ),
{
    reveal(named_color);
    lemma_keyword_color(seq![0x70u8, 0x69, 0x6e, 0x6b]);
}

proof fn lemma_keyword_plum()
    ensures
        spec_color_from_str(seq![0x70u8, 0x6c, 0x75, 0x6d]) == Ok::<Color, ErrorView>(
            Color { red: 221, green: 160, blue: 221, alpha: 255 },
        ),
{
    reveal(named_color);
    lemma_keyword_color(seq![0x70u8, 0x6c, 0x75, 0x6d]);
}

proof fn lemma_keyword_powderblue()
    ensures
        spec_color_from_str(seq![0x70u8, 0x6f, 0x77, 0x64, 0x65, 0x72, 0x62, 0x6c, 0x75, 0x65]) == Ok::<Color, ErrorView>(
            Color { red: 176, green: 224, blue: 230, alpha: 255 },
        ),
{
    reveal(named_color);
    lemma_keyword_color(seq![0x70u8, 0x6f, 0x77, 0x64, 0x65, 0x72, 0x62, 0x6c, 0x75, 0x65]);
}

proof fn lemma_keyword_purple()
    ensures
        spec_color_from_str(seq![0x70u8, 0x75, 0x72, 0x70, 0x6c, 0x65]) == Ok::<Color, ErrorView>(
            Color { red: 128, green: 0, blue: 128, alpha: 255 },
        ),
{
    reveal(named_color);
    lemma_keyword_color(seq![0x70u8, 0x75, 0x72, 0x70, 0x6c, 0x65]);
}

/// The CSS color keywords that start with `p`, and their colors.
pub proof fn law_color_keywords_p()
    ensures
        // palegoldenrod
        spec_color_from_str(seq![0x70u8, 0x61, 0x6c, 0x65, 0x67, 0x6f, 0x6c, 0x64, 0x65, 0x6e, 0x72, 0x6f, 0x64]) == Ok::<Color, ErrorView>(
            Color { red: 238, green: 232, blue: 170, alpha: 255 },
        ),
        // palegreen
        spec_color_from_str(seq![0x70u8, 0x61, 0x6c, 0x65, 0x67, 0x72, 0x65, 0x65, 0x6e]) == Ok::<Color, ErrorView>(
            Color { red: 152, green: 251, blue: 152, alpha: 255 },
        ),
        // paleturquoise
        spec_color_from_str(seq![0x70u8, 0x61, 0x6c, 0x65, 0x74, 0x75, 0x72, 0x71, 0x75, 0x6f, 0x69, 0x73, 0x65]) == Ok::<Color, ErrorView>(
            Color { red: 175, green: 238, blue: 238, alpha: 255 },
        ),
        // palevioletred
        spec_color_from_str(seq![0x70u8, 0x61, 0x6c, 0x65, 0x76, 0x69, 0x6f, 0x6c, 0x65, 0x74, 0x72, 0x65, 0x64]) == Ok::<Color, ErrorView>(
            Color { red: 219, green: 112, blue: 147, alpha: 255 },
        ),
        // papayawhip
        spec_color_from_str(seq![0x70u8, 0x61, 0x70, 0x61, 0x79, 0x61, 0x77, 0x68, 0x69, 0x70]) == Ok::<Color, ErrorView>(
            Color { red: 255, green: 239, blue: 213, alpha: 255 },
        ),
        // peachpuff
        spec_color_from_str(seq![0x70u8, 0x65, 0x61, 0x63, 0x68, 0x70, 0x75, 0x66, 0x66]) == Ok::<Color, ErrorView>(
            Color { red: 255, green: 218, blue: 185, alpha: 255 },
        ),
        // peru
        spec_color_from_str(seq![0x70u8, 0x65, 0x72, 0x75]) == Ok::<Color, ErrorView>(
            Color { red: 205, green: 133, blue: 63, alpha: 255 },
        ),
        // pink
        spec_color_from_str(seq![0x70u8, 0x69, 0x6e, 0x6b]) == Ok::<Color, ErrorView>(
            Color { red: 255, green: 192, blue: 203, alpha: 255 },
        ),
        // plum
        spec_color_from_str(seq![0x70u8, 0x6c, 0x75, 0x6d]) == Ok::<Color, ErrorView>(
            Color { red: 221, green: 160, blue: 221, alpha: 255 },
        ),
        // powderblue
        spec_color_from_str(seq![0x70u8, 0x6f, 0x77, 0x64, 0x65, 0x72, 0x62, 0x6c, 0x75, 0x65]) == Ok::<Color, ErrorView>(
            Color { red: 176, green: 224, blue: 230, alpha: 255 },
        ),
        // purple
        spec_color_from_str(seq![0x70u8, 0x75, 0x72, 0x70, 0x6c, 0x65]) == Ok::<Color, ErrorView>(
            Color { red: 128, green: 0, blue: 128, alpha: 255 },
        ),
{
    lemma_keyword_palegoldenrod();
    lemma_keyword_palegreen();
    lemma_keyword_paleturquoise();
    lemma_keyword_palevioletred();
    lemma_keyword_papayawhip();
    lemma_keyword_peachpuff();
    lemma_keyword_peru();
    lemma_keyword_pink();
    lemma_keyword_plum();
    lemma_keyword_powderblue();
    lemma_keyword_purple();
}

proof fn lemma_keyword_rebeccapurple()
    ensures
        spec_color_from_str(seq![0x72u8, 0x65, 0x62, 0x65, 0x63, 0x63, 0x61, 0x70, 0x75, 0x72, 0x70, 0x6c, 0x65]) == Ok::<Color, ErrorView>(
            Color { red: 102, green: 51, blue: 153, alpha: 255 },
        ),
{
    reveal(named_color);
    lemma_keyword_color(seq![0x72u8, 0x65, 0x62, 0x65, 0x63, 0x63, 0x61, 0x70, 0x75, 0x72, 0x70, 0x6c, 0x65]);
}

proof fn lemma_keyword_red()
    ensures
        spec_color_from_str(seq![0x72u8, 0x65, 0x64]) == Ok::<Color, ErrorView>(
            Color { red: 255, green: 0, blue: 0, alpha: 255 },
        ),
{
    reveal(named_color);
    lemma_keyword_color(seq![0x72u8, 0x65, 0x64]);
}

proof fn lemma_keyword_rosybrown()
    ensures
        spec_color_from_str(seq![0x72u8, 0x6f, 0x73, 0x79, 0x62, 0x72, 0x6f, 0x77, 0x6e]) == Ok::<Color, ErrorView>(
            Color { red: 188, green: 143, blue: 143, alpha: 255 },
        ),
{
    reveal(named_color);
    lemma_keyword_color(seq![0x72u8, 0x6f, 0x73, 0x79, 0x62, 0x72, 0x6f, 0x77, 0x6e]);
}

proof fn lemma_keyword_royalblue()
    ensures
        spec_color_from_str(seq![0x72u8, 0x6f, 0x79, 0x61, 0x6c, 0x62, 0x6c, 0x75, 0x65]) == Ok::<Color, ErrorView>(
            Color { red: 65, green: 105, blue: 225, alpha: 255 },
        ),
{
    reveal(named_color);
    lemma_keyword_color(seq![0x72u8, 0x6f, 0x79, 0x61, 0x6c, 0x62, 0x6c, 0x75, 0x65]);
}

/// The CSS color keywords that start with `r`, and their colors.
pub proof fn law_color_keywords_r()
    ensures
        // rebeccapurple
        spec_color_from_str(seq![0x72u8, 0x65, 0x62, 0x65, 0x63, 0x63, 0x61, 0x70, 0x75, 0x72, 0x70, 0x6c, 0x65]) == Ok::<Color, ErrorView>(
            Color { red: 102, green: 51, blue: 153, alpha: 255 },
        ),
        // red
        spec_color_from_str(seq![0x72u8, 0x65, 0x64]) == Ok::<Color, ErrorView>(
            Color { red: 255, green: 0, blue: 0, alpha: 255 },
        ),
        // rosybrown
        spec_color_from_str(seq![0x72u8, 0x6f, 0x73, 0x79, 0x62, 0x72, 0x6f, 0x77, 0x6e]) == Ok::<Color, ErrorView>(
            Color { red: 188, green: 143, blue: 143, alpha: 255 },
        ),
        // royalblue
        spec_color_from_str(seq![0x72u8, 0x6f, 0x79, 0x61, 0x6c, 0x62, 0x6c, 0x75, 0x65]) == Ok::<Color, ErrorView>(
            Color { red: 65, green: 105, blue: 225, alpha: 255 },
        ),
{
    lemma_keyword_rebeccapurple();
    lemma_keyword_red();
    lemma_keyword_rosybrown();
    lemma_keyword_royalblue();
}

proof fn lemma_keyword_saddlebrown()
    ensures
        spec_color_from_str(seq![0x73u8, 0x61, 0x64, 0x64, 0x6c, 0x65, 0x62, 0x72, 0x6f, 0x77, 0x6e]) == Ok::<Color, ErrorView>(
            Color { red: 139, green: 69, blue: 19, alpha: 255 },
        ),
{
    reveal(named_color);
    lemma_keyword_color(seq![0x73u8, 0x61, 0x64, 0x64, 0x6c, 0x65, 0x62, 0x72, 0x6f, 0x77, 0x6e]);
}

proof fn lemma_keyword_salmon()
    ensures
        spec_color_from_str(seq![0x73u8, 0x61, 0x6c, 0x6d, 0x6f, 0x6e]) == Ok::<Color, ErrorView>(
            Color { red: 250, green: 128, blue: 114, alpha: 255 },
        ),
{
    reveal(named_color);
    lemma_keyword_color(seq![0x73u8, 0x61, 0x6c, 0x6d, 0x6f, 0x6e]);
}

proof fn lemma_keyword_sandybrown()
    ensures
        spec_color_from_str(seq![0x73u8, 0x61, 0x6e, 0x64, 0x79, 0x62, 0x72, 0x6f, 0x77, 0x6e]) == Ok::<Color, ErrorView>(
            Color { red: 244, green: 164, blue: 96, alpha: 255 },
        ),
{
    reveal(named_color);
    lemma_keyword_color(seq![0x73u8, 0x61, 0x6e, 0x64, 0x79, 0x62, 0x72, 0x6f, 0x77, 0x6e]);
}

proof fn lemma_keyword_seagreen()
    ensures
        spec_color_from_str(seq![0x73u8, 0x65, 0x61, 0x67, 0x72, 0x65, 0x65, 0x6e]) == Ok::<Color, ErrorView>(
            Color { red: 46, green: 139, blue: 87, alpha: 255 },
        ),
{
    reveal(named_color);
    lemma_keyword_color(seq![0x73u8, 0x65, 0x61, 0x67, 0x72, 0x65, 0x65, 0x6e]);
}

proof fn lemma_keyword_seashell()
    ensures
        spec_color_from_str(seq![0x73u8, 0x65, 0x61, 0x73, 0x68, 0x65, 0x6c, 0x6c]) == Ok::<Color, ErrorView>(
            Color { red: 255, green: 245, blue: 238, alpha: 255 },
        ),
{
    reveal(named_color);
    lemma_keyword_color(seq![0x73u8, 0x65, 0x61, 0x73, 0x68, 0x65, 0x6c, 0x6c]);
}

proof fn lemma_keyword_sienna()
    ensures
        spec_color_from_str(seq![0x73u8, 0x69, 0x65, 0x6e, 0x6e, 0x61]) == Ok::<Color, ErrorView>(
            Color { red: 160, green: 82, blue: 45, alpha: 255 },
        ),
{
    reveal(named_color);
    lemma_keyword_color(seq![0x73u8, 0x69, 0x65, 0x6e, 0x6e, 0x61]);
}

proof fn lemma_keyword_silver()
    ensures
        spec_color_from_str(seq![0x73u8, 0x69, 0x6c, 0x76, 0x65, 0x72]) == Ok::<Color, ErrorView>(
            Color { red: 192, green: 192, blue: 192, alpha: 255 },
        ),
{
    reveal(named_color);
    lemma_keyword_color(seq![0x73u8, 0x69, 0x6c, 0x76, 0x65, 0x72]);
}

proof fn lemma_keyword_skyblue()
    ensures
        spec_color_from_str(seq![0x73u8, 0x6b, 0x79, 0x62, 0x6c, 0x75, 0x65]) == Ok::<Color, ErrorView>(
            Color { red: 135, green: 206, blue: 235, alpha: 255 },
        ),
{
    reveal(named_color);
    lemma_keyword_color(seq![0x73u8, 0x6b, 0x79, 0x62, 0x6c, 0x75, 0x65]);
}

proof fn lemma_keyword_slateblue()
    ensures
        spec_color_from_str(seq![0x73u8, 0x6c, 0x61, 0x74, 0x65, 0x62, 0x6c, 0x75, 0x65]) == Ok::<Color, ErrorView>(
            Color { red: 106, green: 90, blue: 205, alpha: 255 },
        ),
{
    reveal(named_color);
    lemma_keyword_color(seq![0x73u8, 0x6c, 0x61, 0x74, 0x65, 0x62, 0x6c, 0x75, 0x65]);
}

proof fn lemma_keyword_slategray()
    ensures
        spec_color_from_str(seq![0x73u8, 0x6c, 0x61, 0x74, 0x65, 0x67, 0x72, 0x61, 0x79]) == Ok::<Color, ErrorView>(
            Color { red: 112, green: 128, blue: 144, alpha: 255 },
        ),
{
    reveal(named_color);
    lemma_keyword_color(seq![0x73u8, 0x6c, 0x61, 0x74, 0x65, 0x67, 0x72, 0x61, 0x79]);
}

proof fn lemma_keyword_slategrey()
    ensures
        spec_color_from_str(seq![0x73u8, 0x6c, 0x61, 0x74, 0x65, 0x67, 0x72, 0x65, 0x79]) == Ok::<Color, ErrorView>(
            Color { red: 112, green: 128, blue: 144, alpha: 255 },
        ),
{
    reveal(named_color);
    lemma_keyword_color(seq![0x73u8, 0x6c, 0x61, 0x74, 0x65, 0x67, 0x72, 0x65, 0x79]);
}

proof fn lemma_keyword_snow()
    ensures
        spec_color_from_str(seq![0x73u8, 0x6e, 0x6f, 0x77]) == Ok::<Color, ErrorView>(
            Color { red: 255, green: 250, blue: 250, alpha: 255 },
        ),
{
    reveal(named_color);
    lemma_keyword_color(seq![0x73u8, 0x6e, 0x6f, 0x77]);
}

proof fn lemma_keyword_springgreen()
    ensures
        spec_color_from_str(seq![0x73u8, 0x70, 0x72, 0x69, 0x6e, 0x67, 0x67, 0x72, 0x65, 0x65, 0x6e]) == Ok::<Color, ErrorView>(
            Color { red: 0, green: 255, blue: 127, alpha: 255 },
        ),
{
    reveal(named_color);
    lemma_keyword_color(seq![0x73u8, 0x70, 0x72, 0x69, 0x6e, 0x67, 0x67, 0x72, 0x65, 0x65, 0x6e]);
}

proof fn lemma_keyword_steelblue()
    ensures
        spec_color_from_str(seq![0x73u8, 0x74, 0x65, 0x65, 0x6c, 0x62, 0x6c, 0x75, 0x65]) == Ok::<Color, ErrorView>(
            Color { red: 70, green: 130, blue: 180, alpha: 255 },
        ),
{
    reveal(named_color);
    lemma_keyword_color(seq![0x73u8, 0x74, 0x65, 0x65, 0x6c, 0x62, 0x6c, 0x75, 0x65]);
}

/// The CSS color keywords that start with `s`, and their colors.
pub proof fn law_color_keywords_s()
    ensures
        // saddlebrown
        spec_color_from_str(seq![0x73u8, 0x61, 0x64, 0x64, 0x6c, 0x65, 0x62, 0x72, 0x6f, 0x77, 0x6e]) == Ok::<Color, ErrorView>(
            Color { red: 139, green: 69, blue: 19, alpha: 255 },
        ),
        // salmon
        spec_color_from_str(seq![0x73u8, 0x61, 0x6c, 0x6d, 0x6f, 0x6e]) == Ok::<Color, ErrorView>(
            Color { red: 250, green: 128, blue: 114, alpha: 255 },
        ),
        // sandybrown
        spec_color_from_str(seq![0x73u8, 0x61, 0x6e, 0x64, 0x79, 0x62, 0x72, 0x6f, 0x77, 0x6e]) == Ok::<Color, ErrorView>(
            Color { red: 244, green: 164, blue: 96, alpha: 255 },
        ),
        // seagreen
        spec_color_from_str(seq![0x73u8, 0x65, 0x61, 0x67, 0x72, 0x65, 0x65, 0x6e]) == Ok::<Color, ErrorView>(
            Color { red: 46, green: 139, blue: 87, alpha: 255 },
        ),
        // seashell
        spec_color_from_str(seq![0x73u8, 0x65, 0x61, 0x73, 0x68, 0x65, 0x6c, 0x6c]) == Ok::<Color, ErrorView>(
            Color { red: 255, green: 245, blue: 238, alpha: 255 },
        ),
        // sienna
        spec_color_from_str(seq![0x73u8, 0x69, 0x65, 0x6e, 0x6e, 0x61]) == Ok::<Color, ErrorView>(
            Color { red: 160, green: 82, blue: 45, alpha: 255 },
        ),
        // silver
        spec_color_from_str(seq![0x73u8, 0x69, 0x6c, 0x76, 0x65, 0x72]) == Ok::<Color, ErrorView>(
            Color { red: 192, green: 192, blue: 192, alpha: 255 },
        ),
        // skyblue
        spec_color_from_str(seq![0x73u8, 0x6b, 0x79, 0x62, 0x6c, 0x75, 0x65]) == Ok::<Color, ErrorView>(
            Color { red: 135, green: 206, blue: 235, alpha: 255 },
        ),
        // slateblue
        spec_color_from_str(seq![0x73u8, 0x6c, 0x61, 0x74, 0x65, 0x62, 0x6c, 0x75, 0x65]) == Ok::<Color, ErrorView>(
            Color { red: 106, green: 90, blue: 205, alpha: 255 },
        ),
        // slategray
        spec_color_from_str(seq![0x73u8, 0x6c, 0x61, 0x74, 0x65, 0x67, 0x72, 0x61, 0x79]) == Ok::<Color, ErrorView>(
            Color { red: 112, green: 128, blue: 144, alpha: 255 },
        ),
        // slategrey
        spec_color_from_str(seq![0x73u8, 0x6c, 0x61, 0x74, 0x65, 0x67, 0x72, 0x65, 0x79]) == Ok::<Color, ErrorView>(
            Color { red: 112, green: 128, blue: 144, alpha: 255 },
        ),
        // snow
        spec_color_from_str(seq![0x73u8, 0x6e, 0x6f, 0x77]) == Ok::<Color, ErrorView>(
            Color { red: 255, green: 250, blue: 250, alpha: 255 },
        ),
        // springgreen
        spec_color_from_str(seq![0x73u8, 0x70, 0x72, 0x69, 0x6e, 0x67, 0x67, 0x72, 0x65, 0x65, 0x6e]) == Ok::<Color, ErrorView>(
            Color { red: 0, green: 255, blue: 127, alpha: 255 },
        ),
        // steelblue
        spec_color_from_str(seq![0x73u8, 0x74, 0x65, 0x65, 0x6c, 0x62, 0x6c, 0x75, 0x65]) == Ok::<Color, ErrorView>(
            Color { red: 70, green: 130, blue: 180, alpha: 255 },
        ),
{
    lemma_keyword_saddlebrown();
    lemma_keyword_salmon();
    lemma_keyword_sandybrown();
    lemma_keyword_seagreen();
    lemma_keyword_seashell();
    lemma_keyword_sienna();
    lemma_keyword_silver();
    lemma_keyword_skyblue();
    lemma_keyword_slateblue();
    lemma_keyword_slategray();
    lemma_keyword_slategrey();
    lemma_keyword_snow();
    lemma_keyword_springgreen();
    lemma_keyword_steelblue();
}

proof fn lemma_keyword_tan()
    ensures
        spec_color_from_str(seq![0x74u8, 0x61, 0x6e]) == Ok::<Color, ErrorView>(
            Color { red: 210, green: 180, blue: 140, alpha: 255 },
        ),
{
    reveal(named_color);
    lemma_keyword_color(seq![0x74u8, 0x61, 0x6e]);
}

proof fn lemma_keyword_teal()
    ensures
        spec_color_from_str(seq![0x74u8, 0x65, 0x61, 0x6c]) == Ok::<Color, ErrorView>(
            Color { red: 0, green: 128, blue: 128, alpha: 255 },
        ),
{
    reveal(named_color);
    lemma_keyword_color(seq![0x74u8, 0x65, 0x61, 0x6c]);
}

proof fn lemma_keyword_thistle()
    ensures
        spec_color_from_str(seq![0x74u8, 0x68, 0x69, 0x73, 0x74, 0x6c, 0x65]) == Ok::<Color, ErrorView>(
            Color { red: 216, green: 191, blue: 216, alpha: 255 },
        ),
{
    reveal(named_color);
    lemma_keyword_color(seq![0x74u8, 0x68, 0x69, 0x73, 0x74, 0x6c, 0x65]);
}

proof fn lemma_keyword_tomato()
    ensures
        spec_color_from_str(seq![0x74u8, 0x6f, 0x6d, 0x61, 0x74, 0x6f]) == Ok::<Color, ErrorView>(
            Color { red: 255, green: 99, blue: 71, alpha: 255 },
        ),
{
    reveal(named_color);
    lemma_keyword_color(seq![0x74u8, 0x6f, 0x6d, 0x61, 0x74, 0x6f]);
}

proof fn lemma_keyword_transparent()
    ensures
        spec_color_from_str(seq![0x74u8, 0x72, 0x61, 0x6e, 0x73, 0x70, 0x61, 0x72, 0x65, 0x6e, 0x74]) == Ok::<Color, ErrorView>(
            Color { red: 0, green: 0, blue: 0, alpha: 0 },
        ),
{
    reveal(named_color);
    lemma_keyword_color(seq![0x74u8, 0x72, 0x61, 0x6e, 0x73, 0x70, 0x61, 0x72, 0x65, 0x6e, 0x74]);
}

proof fn lemma_keyword_turquoise()
    ensures
        spec_color_from_str(seq![0x74u8, 0x75, 0x72, 0x71, 0x75, 0x6f, 0x69, 0x73, 0x65]) == Ok::<Color, ErrorView>(
            Color { red: 64, green: 224, blue: 208, alpha: 255 },
        ),
{
    reveal(named_color);
    lemma_keyword_color(seq![0x74u8, 0x75, 0x72, 0x71, 0x75, 0x6f, 0x69, 0x73, 0x65]);
}

/// The CSS color keywords that start with `t`, and their colors.
pub proof fn law_color_keywords_t()
    ensures
        // tan
        spec_color_from_str(seq![0x74u8, 0x61, 0x6e]) == Ok::<Color, ErrorView>(
            Color { red: 210, green: 180, blue: 140, alpha: 255 },
        ),
        // teal
        spec_color_from_str(seq![0x74u8, 0x65, 0x61, 0x6c]) == Ok::<Color, ErrorView>(
            Color { red: 0, green: 128, blue: 128, alpha: 255 },
        ),
        // thistle
        spec_color_from_str(seq![0x74u8, 0x68, 0x69, 0x73, 0x74, 0x6c, 0x65]) == Ok::<Color, ErrorView>(
            Color { red: 216, green: 191, blue: 216, alpha: 255 },
        ),
        // tomato
        spec_color_from_str(seq![0x74u8, 0x6f, 0x6d, 0x61, 0x74, 0x6f]) == Ok::<Color, ErrorView>(
            Color { red: 255, green: 99, blue: 71, alpha: 255 },
        ),
        // transparent
        spec_color_from_str(seq![0x74u8, 0x72, 0x61, 0x6e, 0x73, 0x70, 0x61, 0x72, 0x65, 0x6e, 0x74]) == Ok::<Color, ErrorView>(
            Color { red: 0, green: 0, blue: 0, alpha: 0 },
        ),
        // turquoise
        spec_color_from_str(seq![0x74u8, 0x75, 0x72, 0x71, 0x75, 0x6f, 0x69, 0x73, 0x65]) == Ok::<Color, ErrorView>(
            Color { red: 64, green: 224, blue: 208, alpha: 255 },
        ),
{
    lemma_keyword_tan();
    lemma_keyword_teal();
    lemma_keyword_thistle();
    lemma_keyword_tomato();
    lemma_keyword_transparent();
    lemma_keyword_turquoise();
}

proof fn lemma_keyword_violet()
    ensures
        spec_color_from_str(seq![0x76u8, 0x69, 0x6f, 0x6c, 0x65, 0x74]) == Ok::<Color, ErrorView>(
            Color { red: 238, green: 130, blue: 238, alpha: 255 },
        ),
{
    reveal(named_color);
    lemma_keyword_color(seq![0x76u8, 0x69, 0x6f, 0x6c, 0x65, 0x74]);
}

/// The CSS color keywords that start with `v`, and their colors.
pub proof fn law_color_keywords_v()
    ensures
        // violet
        spec_color_from_str(seq![0x76u8, 0x69, 0x6f, 0x6c, 0x65, 0x74]) == Ok::<Color, ErrorView>(
            Color { red: 238, green: 130, blue: 238, alpha: 255 },
        ),
{
    lemma_keyword_violet();
}

proof fn lemma_keyword_wheat()
    ensures
        spec_color_from_str(seq![0x77u8, 0x68, 0x65, 0x61, 0x74]) == Ok::<Color, ErrorView>(
            Color { red: 245, green: 222, blue: 179, alpha: 255 },
        ),
{
    reveal(named_color);
    lemma_keyword_color(seq![0x77u8, 0x68, 0x65, 0x61, 0x74]);
}

proof fn lemma_keyword_white()
    ensures
        spec_color_from_str(seq![0x77u8, 0x68, 0x69, 0x74, 0x65]) == Ok::<Color, ErrorView>(
            Color { red: 255, green: 255, blue: 255, alpha: 255 },
        ),
{
    reveal(named_color);
    lemma_keyword_color(seq![0x77u8, 0x68, 0x69, 0x74, 0x65]);
}

proof fn lemma_keyword_whitesmoke()
    ensures
        spec_color_from_str(seq![0x77u8, 0x68, 0x69, 0x74, 0x65, 0x73, 0x6d, 0x6f, 0x6b, 0x65]) == Ok::<Color, ErrorView>(
            Color { red: 245, green: 245, blue: 245, alpha: 255 },
        ),
{
    reveal(named_color);
    lemma_keyword_color(seq![0x77u8, 0x68, 0x69, 0x74, 0x65, 0x73, 0x6d, 0x6f, 0x6b, 0x65]);
}

/// The CSS color keywords that start with `w`, and their colors.
pub proof fn law_color_keywords_w()
    ensures
        // wheat
        spec_color_from_str(seq![0x77u8, 0x68, 0x65, 0x61, 0x74]) == Ok::<Color, ErrorView>(
            Color { red: 245, green: 222, blue: 179, alpha: 255 },
        ),
        // white
        spec_color_from_str(seq![0x77u8, 0x68, 0x69, 0x74, 0x65]) == Ok::<Color, ErrorView>(
            Color { red: 255, green: 255, blue: 255, alpha: 255 },
        ),
        // whitesmoke
        spec_color_from_str(seq![0x77u8, 0x68, 0x69, 0x74, 0x65, 0x73, 0x6d, 0x6f, 0x6b, 0x65]) == Ok::<Color, ErrorView>(
            Color { red: 245, green: 245, blue: 245, alpha: 255 },
        ),
{
    lemma_keyword_wheat();
    lemma_keyword_white();
    lemma_keyword_whitesmoke();
}

proof fn lemma_keyword_yellow()
    ensures
        spec_color_from_str(seq![0x79u8, 0x65, 0x6c, 0x6c, 0x6f, 0x77]) == Ok::<Color, ErrorView>(
            Color { red: 255, green: 255, blue: 0, alpha: 255 },
        ),
{
    reveal(named_color);
    lemma_keyword_color(seq![0x79u8, 0x65, 0x6c, 0x6c, 0x6f, 0x77]);
}

proof fn lemma_keyword_yellowgreen()
    ensures
        spec_color_from_str(seq![0x79u8, 0x65, 0x6c, 0x6c, 0x6f, 0x77, 0x67, 0x72, 0x65, 0x65, 0x6e]) == Ok::<Color, ErrorView>(
            Color { red: 154, green: 205, blue: 50, alpha: 255 },
        ),
{
    reveal(named_color);
    lemma_keyword_color(seq![0x79u8, 0x65, 0x6c, 0x6c, 0x6f, 0x77, 0x67, 0x72, 0x65, 0x65, 0x6e]);
}

/// The CSS color keywords that start with `y`, and their colors.
pub proof fn law_color_keywords_y()
    ensures
        // yellow
        spec_color_from_str(seq![0x79u8, 0x65, 0x6c, 0x6c, 0x6f, 0x77]) == Ok::<Color, ErrorView>(
            Color { red: 255, green: 255, blue: 0, alpha: 255 },
        ),
        // yellowgreen
        spec_color_from_str(seq![0x79u8, 0x65, 0x6c, 0x6c, 0x6f, 0x77, 0x67, 0x72, 0x65, 0x65, 0x6e]) == Ok::<Color, ErrorView>(
            Color { red: 154, green: 205, blue: 50, alpha: 255 },
        ),
{
    lemma_keyword_yellow();
    lemma_keyword_yellowgreen();
}

} // verus!
