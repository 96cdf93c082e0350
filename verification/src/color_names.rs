//! CSS color keywords: the named colors and `transparent`.

use vstd::prelude::*;

use crate::color::Color;

verus! {

/// The named colors that start with `a`.
pub open spec fn named_color_a(name: Seq<u8>) -> Option<Color> {
    if name.len() == 9 && name[0] == 0x61 && name[1] == 0x6c && name[2] == 0x69 && name[3] == 0x63 && name[4] == 0x65 && name[5] == 0x62 && name[6] == 0x6c && name[7] == 0x75 && name[8] == 0x65 {
        // aliceblue
        Some(Color { red: 240, green: 248, blue: 255, alpha: 255 })
    } else if name.len() == 12 && name[0] == 0x61 && name[1] == 0x6e && name[2] == 0x74 && name[3] == 0x69 && name[4] == 0x71 && name[5] == 0x75 && name[6] == 0x65 && name[7] == 0x77 && name[8] == 0x68 && name[9] == 0x69 && name[10] == 0x74 && name[11] == 0x65 {
        // antiquewhite
        Some(Color { red: 250, green: 235, blue: 215, alpha: 255 })
    } else if name.len() == 4 && name[0] == 0x61 && name[1] == 0x71 && name[2] == 0x75 && name[3] == 0x61 {
        // aqua
        Some(Color { red: 0, green: 255, blue: 255, alpha: 255 })
    } else if name.len() == 10 && name[0] == 0x61 && name[1] == 0x71 && name[2] == 0x75 && name[3] == 0x61 && name[4] == 0x6d && name[5] == 0x61 && name[6] == 0x72 && name[7] == 0x69 && name[8] == 0x6e && name[9] == 0x65 {
        // aquamarine
        Some(Color { red: 127, green: 255, blue: 212, alpha: 255 })
    } else if name.len() == 5 && name[0] == 0x61 && name[1] == 0x7a && name[2] == 0x75 && name[3] == 0x72 && name[4] == 0x65 {
        // azure
        Some(Color { red: 240, green: 255, blue: 255, alpha: 255 })
    } else {
        None
    }
}

fn find_named_color_a(name: &[u8]) -> (r: Option<Color>)
    ensures
        r == named_color_a(name@),
{
    let n = name.len();
    if n == 9 && name[0] == 0x61 && name[1] == 0x6c && name[2] == 0x69 && name[3] == 0x63 && name[4] == 0x65 && name[5] == 0x62 && name[6] == 0x6c && name[7] == 0x75 && name[8] == 0x65 {
        // aliceblue
        return Some(Color { red: 240, green: 248, blue: 255, alpha: 255 });
    }
    if n == 12 && name[0] == 0x61 && name[1] == 0x6e && name[2] == 0x74 && name[3] == 0x69 && name[4] == 0x71 && name[5] == 0x75 && name[6] == 0x65 && name[7] == 0x77 && name[8] == 0x68 && name[9] == 0x69 && name[10] == 0x74 && name[11] == 0x65 {
        // antiquewhite
        return Some(Color { red: 250, green: 235, blue: 215, alpha: 255 });
    }
    if n == 4 && name[0] == 0x61 && name[1] == 0x71 && name[2] == 0x75 && name[3] == 0x61 {
        // aqua
        return Some(Color { red: 0, green: 255, blue: 255, alpha: 255 });
    }
    if n == 10 && name[0] == 0x61 && name[1] == 0x71 && name[2] == 0x75 && name[3] == 0x61 && name[4] == 0x6d && name[5] == 0x61 && name[6] == 0x72 && name[7] == 0x69 && name[8] == 0x6e && name[9] == 0x65 {
        // aquamarine
        return Some(Color { red: 127, green: 255, blue: 212, alpha: 255 });
    }
    if n == 5 && name[0] == 0x61 && name[1] == 0x7a && name[2] == 0x75 && name[3] == 0x72 && name[4] == 0x65 {
        // azure
        return Some(Color { red: 240, green: 255, blue: 255, alpha: 255 });
    }
    None
}

/// The named colors that start with `b`.
pub open spec fn named_color_b(name: Seq<u8>) -> Option<Color> {
    if name.len() == 5 && name[0] == 0x62 && name[1] == 0x65 && name[2] == 0x69 && name[3] == 0x67 && name[4] == 0x65 {
        // beige
        Some(Color { red: 245, green: 245, blue: 220, alpha: 255 })
    } else if name.len() == 6 && name[0] == 0x62 && name[1] == 0x69 && name[2] == 0x73 && name[3] == 0x71 && name[4] == 0x75 && name[5] == 0x65 {
        // bisque
        Some(Color { red: 255, green: 228, blue: 196, alpha: 255 })
    } else if name.len() == 5 && name[0] == 0x62 && name[1] == 0x6c && name[2] == 0x61 && name[3] == 0x63 && name[4] == 0x6b {
        // black
        Some(Color { red: 0, green: 0, blue: 0, alpha: 255 })
    } else if name.len() == 14 && name[0] == 0x62 && name[1] == 0x6c && name[2] == 0x61 && name[3] == 0x6e && name[4] == 0x63 && name[5] == 0x68 && name[6] == 0x65 && name[7] == 0x64 && name[8] == 0x61 && name[9] == 0x6c && name[10] == 0x6d && name[11] == 0x6f && name[12] == 0x6e && name[13] == 0x64 {
        // blanchedalmond
        Some(Color { red: 255, green: 235, blue: 205, alpha: 255 })
    } else if name.len() == 4 && name[0] == 0x62 && name[1] == 0x6c && name[2] == 0x75 && name[3] == 0x65 {
        // blue
        Some(Color { red: 0, green: 0, blue: 255, alpha: 255 })
    } else if name.len() == 10 && name[0] == 0x62 && name[1] == 0x6c && name[2] == 0x75 && name[3] == 0x65 && name[4] == 0x76 && name[5] == 0x69 && name[6] == 0x6f && name[7] == 0x6c && name[8] == 0x65 && name[9] == 0x74 {
        // blueviolet
        Some(Color { red: 138, green: 43, blue: 226, alpha: 255 })
    } else if name.len() == 5 && name[0] == 0x62 && name[1] == 0x72 && name[2] == 0x6f && name[3] == 0x77 && name[4] == 0x6e {
        // brown
        Some(Color { red: 165, green: 42, blue: 42, alpha: 255 })
    } else if name.len() == 9 && name[0] == 0x62 && name[1] == 0x75 && name[2] == 0x72 && name[3] == 0x6c && name[4] == 0x79 && name[5] == 0x77 && name[6] == 0x6f && name[7] == 0x6f && name[8] == 0x64 {
        // burlywood
        Some(Color { red: 222, green: 184, blue: 135, alpha: 255 })
    } else {
        None
    }
}

fn find_named_color_b(name: &[u8]) -> (r: Option<Color>)
    ensures
        r == named_color_b(name@),
{
    let n = name.len();
    if n == 5 && name[0] == 0x62 && name[1] == 0x65 && name[2] == 0x69 && name[3] == 0x67 && name[4] == 0x65 {
        // beige
        return Some(Color { red: 245, green: 245, blue: 220, alpha: 255 });
    }
    if n == 6 && name[0] == 0x62 && name[1] == 0x69 && name[2] == 0x73 && name[3] == 0x71 && name[4] == 0x75 && name[5] == 0x65 {
        // bisque
        return Some(Color { red: 255, green: 228, blue: 196, alpha: 255 });
    }
    if n == 5 && name[0] == 0x62 && name[1] == 0x6c && name[2] == 0x61 && name[3] == 0x63 && name[4] == 0x6b {
        // black
        return Some(Color { red: 0, green: 0, blue: 0, alpha: 255 });
    }
    if n == 14 && name[0] == 0x62 && name[1] == 0x6c && name[2] == 0x61 && name[3] == 0x6e && name[4] == 0x63 && name[5] == 0x68 && name[6] == 0x65 && name[7] == 0x64 && name[8] == 0x61 && name[9] == 0x6c && name[10] == 0x6d && name[11] == 0x6f && name[12] == 0x6e && name[13] == 0x64 {
        // blanchedalmond
        return Some(Color { red: 255, green: 235, blue: 205, alpha: 255 });
    }
    if n == 4 && name[0] == 0x62 && name[1] == 0x6c && name[2] == 0x75 && name[3] == 0x65 {
        // blue
        return Some(Color { red: 0, green: 0, blue: 255, alpha: 255 });
    }
    if n == 10 && name[0] == 0x62 && name[1] == 0x6c && name[2] == 0x75 && name[3] == 0x65 && name[4] == 0x76 && name[5] == 0x69 && name[6] == 0x6f && name[7] == 0x6c && name[8] == 0x65 && name[9] == 0x74 {
        // blueviolet
        return Some(Color { red: 138, green: 43, blue: 226, alpha: 255 });
    }
    if n == 5 && name[0] == 0x62 && name[1] == 0x72 && name[2] == 0x6f && name[3] == 0x77 && name[4] == 0x6e {
        // brown
        return Some(Color { red: 165, green: 42, blue: 42, alpha: 255 });
    }
    if n == 9 && name[0] == 0x62 && name[1] == 0x75 && name[2] == 0x72 && name[3] == 0x6c && name[4] == 0x79 && name[5] == 0x77 && name[6] == 0x6f && name[7] == 0x6f && name[8] == 0x64 {
        // burlywood
        return Some(Color { red: 222, green: 184, blue: 135, alpha: 255 });
    }
    None
}

/// The named colors that start with `c`.
pub open spec fn named_color_c(name: Seq<u8>) -> Option<Color> {
    if name.len() == 9 && name[0] == 0x63 && name[1] == 0x61 && name[2] == 0x64 && name[3] == 0x65 && name[4] == 0x74 && name[5] == 0x62 && name[6] == 0x6c && name[7] == 0x75 && name[8] == 0x65 {
        // cadetblue
        Some(Color { red: 95, green: 158, blue: 160, alpha: 255 })
    } else if name.len() == 10 && name[0] == 0x63 && name[1] == 0x68 && name[2] == 0x61 && name[3] == 0x72 && name[4] == 0x74 && name[5] == 0x72 && name[6] == 0x65 && name[7] == 0x75 && name[8] == 0x73 && name[9] == 0x65 {
        // chartreuse
        Some(Color { red: 127, green: 255, blue: 0, alpha: 255 })
    } else if name.len() == 9 && name[0] == 0x63 && name[1] == 0x68 && name[2] == 0x6f && name[3] == 0x63 && name[4] == 0x6f && name[5] == 0x6c && name[6] == 0x61 && name[7] == 0x74 && name[8] == 0x65 {
        // chocolate
        Some(Color { red: 210, green: 105, blue: 30, alpha: 255 })
    } else if name.len() == 5 && name[0] == 0x63 && name[1] == 0x6f && name[2] == 0x72 && name[3] == 0x61 && name[4] == 0x6c {
        // coral
        Some(Color { red: 255, green: 127, blue: 80, alpha: 255 })
    } else if name.len() == 14 && name[0] == 0x63 && name[1] == 0x6f && name[2] == 0x72 && name[3] == 0x6e && name[4] == 0x66 && name[5] == 0x6c && name[6] == 0x6f && name[7] == 0x77 && name[8] == 0x65 && name[9] == 0x72 && name[10] == 0x62 && name[11] == 0x6c && name[12] == 0x75 && name[13] == 0x65 {
        // cornflowerblue
        Some(Color { red: 100, green: 149, blue: 237, alpha: 255 })
    } else if name.len() == 8 && name[0] == 0x63 && name[1] == 0x6f && name[2] == 0x72 && name[3] == 0x6e && name[4] == 0x73 && name[5] == 0x69 && name[6] == 0x6c && name[7] == 0x6b {
        // cornsilk
        Some(Color { red: 255, green: 248, blue: 220, alpha: 255 })
    } else if name.len() == 7 && name[0] == 0x63 && name[1] == 0x72 && name[2] == 0x69 && name[3] == 0x6d && name[4] == 0x73 && name[5] == 0x6f && name[6] == 0x6e {
        // crimson
        Some(Color { red: 220, green: 20, blue: 60, alpha: 255 })
    } else if name.len() == 4 && name[0] == 0x63 && name[1] == 0x79 && name[2] == 0x61 && name[3] == 0x6e {
        // cyan
        Some(Color { red: 0, green: 255, blue: 255, alpha: 255 })
    } else {
        None
    }
}

fn find_named_color_c(name: &[u8]) -> (r: Option<Color>)
    ensures
        r == named_color_c(name@),
{
    let n = name.len();
    if n == 9 && name[0] == 0x63 && name[1] == 0x61 && name[2] == 0x64 && name[3] == 0x65 && name[4] == 0x74 && name[5] == 0x62 && name[6] == 0x6c && name[7] == 0x75 && name[8] == 0x65 {
        // cadetblue
        return Some(Color { red: 95, green: 158, blue: 160, alpha: 255 });
    }
    if n == 10 && name[0] == 0x63 && name[1] == 0x68 && name[2] == 0x61 && name[3] == 0x72 && name[4] == 0x74 && name[5] == 0x72 && name[6] == 0x65 && name[7] == 0x75 && name[8] == 0x73 && name[9] == 0x65 {
        // chartreuse
        return Some(Color { red: 127, green: 255, blue: 0, alpha: 255 });
    }
    if n == 9 && name[0] == 0x63 && name[1] == 0x68 && name[2] == 0x6f && name[3] == 0x63 && name[4] == 0x6f && name[5] == 0x6c && name[6] == 0x61 && name[7] == 0x74 && name[8] == 0x65 {
        // chocolate
        return Some(Color { red: 210, green: 105, blue: 30, alpha: 255 });
    }
    if n == 5 && name[0] == 0x63 && name[1] == 0x6f && name[2] == 0x72 && name[3] == 0x61 && name[4] == 0x6c {
        // coral
        return Some(Color { red: 255, green: 127, blue: 80, alpha: 255 });
    }
    if n == 14 && name[0] == 0x63 && name[1] == 0x6f && name[2] == 0x72 && name[3] == 0x6e && name[4] == 0x66 && name[5] == 0x6c && name[6] == 0x6f && name[7] == 0x77 && name[8] == 0x65 && name[9] == 0x72 && name[10] == 0x62 && name[11] == 0x6c && name[12] == 0x75 && name[13] == 0x65 {
        // cornflowerblue
        return Some(Color { red: 100, green: 149, blue: 237, alpha: 255 });
    }
    if n == 8 && name[0] == 0x63 && name[1] == 0x6f && name[2] == 0x72 && name[3] == 0x6e && name[4] == 0x73 && name[5] == 0x69 && name[6] == 0x6c && name[7] == 0x6b {
        // cornsilk
        return Some(Color { red: 255, green: 248, blue: 220, alpha: 255 });
    }
    if n == 7 && name[0] == 0x63 && name[1] == 0x72 && name[2] == 0x69 && name[3] == 0x6d && name[4] == 0x73 && name[5] == 0x6f && name[6] == 0x6e {
        // crimson
        return Some(Color { red: 220, green: 20, blue: 60, alpha: 255 });
    }
    if n == 4 && name[0] == 0x63 && name[1] == 0x79 && name[2] == 0x61 && name[3] == 0x6e {
        // cyan
        return Some(Color { red: 0, green: 255, blue: 255, alpha: 255 });
    }
    None
}

/// The named colors that start with `d`.
pub open spec fn named_color_d(name: Seq<u8>) -> Option<Color> {
    if name.len() == 8 && name[0] == 0x64 && name[1] == 0x61 && name[2] == 0x72 && name[3] == 0x6b && name[4] == 0x62 && name[5] == 0x6c && name[6] == 0x75 && name[7] == 0x65 {
        // darkblue
        Some(Color { red: 0, green: 0, blue: 139, alpha: 255 })
    } else if name.len() == 8 && name[0] == 0x64 && name[1] == 0x61 && name[2] == 0x72 && name[3] == 0x6b && name[4] == 0x63 && name[5] == 0x79 && name[6] == 0x61 && name[7] == 0x6e {
        // darkcyan
        Some(Color { red: 0, green: 139, blue: 139, alpha: 255 })
    } else if name.len() == 13 && name[0] == 0x64 && name[1] == 0x61 && name[2] == 0x72 && name[3] == 0x6b && name[4] == 0x67 && name[5] == 0x6f && name[6] == 0x6c && name[7] == 0x64 && name[8] == 0x65 && name[9] == 0x6e && name[10] == 0x72 && name[11] == 0x6f && name[12] == 0x64 {
        // darkgoldenrod
        Some(Color { red: 184, green: 134, blue: 11, alpha: 255 })
    } else if name.len() == 8 && name[0] == 0x64 && name[1] == 0x61 && name[2] == 0x72 && name[3] == 0x6b && name[4] == 0x67 && name[5] == 0x72 && name[6] == 0x61 && name[7] == 0x79 {
        // darkgray
        Some(Color { red: 169, green: 169, blue: 169, alpha: 255 })
    } else if name.len() == 9 && name[0] == 0x64 && name[1] == 0x61 && name[2] == 0x72 && name[3] == 0x6b && name[4] == 0x67 && name[5] == 0x72 && name[6] == 0x65 && name[7] == 0x65 && name[8] == 0x6e {
        // darkgreen
        Some(Color { red: 0, green: 100, blue: 0, alpha: 255 })
    } else if name.len() == 8 && name[0] == 0x64 && name[1] == 0x61 && name[2] == 0x72 && name[3] == 0x6b && name[4] == 0x67 && name[5] == 0x72 && name[6] == 0x65 && name[7] == 0x79 {
        // darkgrey
        Some(Color { red: 169, green: 169, blue: 169, alpha: 255 })
    } else if name.len() == 9 && name[0] == 0x64 && name[1] == 0x61 && name[2] == 0x72 && name[3] == 0x6b && name[4] == 0x6b && name[5] == 0x68 && name[6] == 0x61 && name[7] == 0x6b && name[8] == 0x69 {
        // darkkhaki
        Some(Color { red: 189, green: 183, blue: 107, alpha: 255 })
    } else if name.len() == 11 && name[0] == 0x64 && name[1] == 0x61 && name[2] == 0x72 && name[3] == 0x6b && name[4] == 0x6d && name[5] == 0x61 && name[6] == 0x67 && name[7] == 0x65 && name[8] == 0x6e && name[9] == 0x74 && name[10] == 0x61 {
        // darkmagenta
        Some(Color { red: 139, green: 0, blue: 139, alpha: 255 })
    } else if name.len() == 14 && name[0] == 0x64 && name[1] == 0x61 && name[2] == 0x72 && name[3] == 0x6b && name[4] == 0x6f && name[5] == 0x6c && name[6] == 0x69 && name[7] == 0x76 && name[8] == 0x65 && name[9] == 0x67 && name[10] == 0x72 && name[11] == 0x65 && name[12] == 0x65 && name[13] == 0x6e {
        // darkolivegreen
        Some(Color { red: 85, green: 107, blue: 47, alpha: 255 })
    } else if name.len() == 10 && name[0] == 0x64 && name[1] == 0x61 && name[2] == 0x72 && name[3] == 0x6b && name[4] == 0x6f && name[5] == 0x72 && name[6] == 0x61 && name[7] == 0x6e && name[8] == 0x67 && name[9] == 0x65 {
        // darkorange
        Some(Color { red: 255, green: 140, blue: 0, alpha: 255 })
    } else if name.len() == 10 && name[0] == 0x64 && name[1] == 0x61 && name[2] == 0x72 && name[3] == 0x6b && name[4] == 0x6f && name[5] == 0x72 && name[6] == 0x63 && name[7] == 0x68 && name[8] == 0x69 && name[9] == 0x64 {
        // darkorchid
        Some(Color { red: 153, green: 50, blue: 204, alpha: 255 })
    } else if name.len() == 7 && name[0] == 0x64 && name[1] == 0x61 && name[2] == 0x72 && name[3] == 0x6b && name[4] == 0x72 && name[5] == 0x65 && name[6] == 0x64 {
        // darkred
        Some(Color { red: 139, green: 0, blue: 0, alpha: 255 })
    } else if name.len() == 10 && name[0] == 0x64 && name[1] == 0x61 && name[2] == 0x72 && name[3] == 0x6b && name[4] == 0x73 && name[5] == 0x61 && name[6] == 0x6c && name[7] == 0x6d && name[8] == 0x6f && name[9] == 0x6e {
        // darksalmon
        Some(Color { red: 233, green: 150, blue: 122, alpha: 255 })
    } else if name.len() == 12 && name[0] == 0x64 && name[1] == 0x61 && name[2] == 0x72 && name[3] == 0x6b && name[4] == 0x73 && name[5] == 0x65 && name[6] == 0x61 && name[7] == 0x67 && name[8] == 0x72 && name[9] == 0x65 && name[10] == 0x65 && name[11] == 0x6e {
        // darkseagreen
        Some(Color { red: 143, green: 188, blue: 143, alpha: 255 })
    } else if name.len() == 13 && name[0] == 0x64 && name[1] == 0x61 && name[2] == 0x72 && name[3] == 0x6b && name[4] == 0x73 && name[5] == 0x6c && name[6] == 0x61 && name[7] == 0x74 && name[8] == 0x65 && name[9] == 0x62 && name[10] == 0x6c && name[11] == 0x75 && name[12] == 0x65 {
        // darkslateblue
        Some(Color { red: 72, green: 61, blue: 139, alpha: 255 })
    } else if name.len() == 13 && name[0] == 0x64 && name[1] == 0x61 && name[2] == 0x72 && name[3] == 0x6b && name[4] == 0x73 && name[5] == 0x6c && name[6] == 0x61 && name[7] == 0x74 && name[8] == 0x65 && name[9] == 0x67 && name[10] == 0x72 && name[11] == 0x61 && name[12] == 0x79 {
        // darkslategray
        Some(Color { red: 47, green: 79, blue: 79, alpha: 255 })
    } else if name.len() == 13 && name[0] == 0x64 && name[1] == 0x61 && name[2] == 0x72 && name[3] == 0x6b && name[4] == 0x73 && name[5] == 0x6c && name[6] == 0x61 && name[7] == 0x74 && name[8] == 0x65 && name[9] == 0x67 && name[10] == 0x72 && name[11] == 0x65 && name[12] == 0x79 {
        // darkslategrey
        Some(Color { red: 47, green: 79, blue: 79, alpha: 255 })
    } else if name.len() == 13 && name[0] == 0x64 && name[1] == 0x61 && name[2] == 0x72 && name[3] == 0x6b && name[4] == 0x74 && name[5] == 0x75 && name[6] == 0x72 && name[7] == 0x71 && name[8] == 0x75 && name[9] == 0x6f && name[10] == 0x69 && name[11] == 0x73 && name[12] == 0x65 {
        // darkturquoise
        Some(Color { red: 0, green: 206, blue: 209, alpha: 255 })
    } else if name.len() == 10 && name[0] == 0x64 && name[1] == 0x61 && name[2] == 0x72 && name[3] == 0x6b && name[4] == 0x76 && name[5] == 0x69 && name[6] == 0x6f && name[7] == 0x6c && name[8] == 0x65 && name[9] == 0x74 {
        // darkviolet
        Some(Color { red: 148, green: 0, blue: 211, alpha: 255 })
    } else if name.len() == 8 && name[0] == 0x64 && name[1] == 0x65 && name[2] == 0x65 && name[3] == 0x70 && name[4] == 0x70 && name[5] == 0x69 && name[6] == 0x6e && name[7] == 0x6b {
        // deeppink
        Some(Color { red: 255, green: 20, blue: 147, alpha: 255 })
    } else if name.len() == 11 && name[0] == 0x64 && name[1] == 0x65 && name[2] == 0x65 && name[3] == 0x70 && name[4] == 0x73 && name[5] == 0x6b && name[6] == 0x79 && name[7] == 0x62 && name[8] == 0x6c && name[9] == 0x75 && name[10] == 0x65 {
        // deepskyblue
        Some(Color { red: 0, green: 191, blue: 255, alpha: 255 })
    } else if name.len() == 7 && name[0] == 0x64 && name[1] == 0x69 && name[2] == 0x6d && name[3] == 0x67 && name[4] == 0x72 && name[5] == 0x61 && name[6] == 0x79 {
        // dimgray
        Some(Color { red: 105, green: 105, blue: 105, alpha: 255 })
    } else if name.len() == 7 && name[0] == 0x64 && name[1] == 0x69 && name[2] == 0x6d && name[3] == 0x67 && name[4] == 0x72 && name[5] == 0x65 && name[6] == 0x79 {
        // dimgrey
        Some(Color { red: 105, green: 105, blue: 105, alpha: 255 })
    } else if name.len() == 10 && name[0] == 0x64 && name[1] == 0x6f && name[2] == 0x64 && name[3] == 0x67 && name[4] == 0x65 && name[5] == 0x72 && name[6] == 0x62 && name[7] == 0x6c && name[8] == 0x75 && name[9] == 0x65 {
        // dodgerblue
        Some(Color { red: 30, green: 144, blue: 255, alpha: 255 })
    } else {
        None
    }
}

fn find_named_color_d(name: &[u8]) -> (r: Option<Color>)
    ensures
        r == named_color_d(name@),
{
    let n = name.len();
    if n == 8 && name[0] == 0x64 && name[1] == 0x61 && name[2] == 0x72 && name[3] == 0x6b && name[4] == 0x62 && name[5] == 0x6c && name[6] == 0x75 && name[7] == 0x65 {
        // darkblue
        return Some(Color { red: 0, green: 0, blue: 139, alpha: 255 });
    }
    if n == 8 && name[0] == 0x64 && name[1] == 0x61 && name[2] == 0x72 && name[3] == 0x6b && name[4] == 0x63 && name[5] == 0x79 && name[6] == 0x61 && name[7] == 0x6e {
        // darkcyan
        return Some(Color { red: 0, green: 139, blue: 139, alpha: 255 });
    }
    if n == 13 && name[0] == 0x64 && name[1] == 0x61 && name[2] == 0x72 && name[3] == 0x6b && name[4] == 0x67 && name[5] == 0x6f && name[6] == 0x6c && name[7] == 0x64 && name[8] == 0x65 && name[9] == 0x6e && name[10] == 0x72 && name[11] == 0x6f && name[12] == 0x64 {
        // darkgoldenrod
        return Some(Color { red: 184, green: 134, blue: 11, alpha: 255 });
    }
    if n == 8 && name[0] == 0x64 && name[1] == 0x61 && name[2] == 0x72 && name[3] == 0x6b && name[4] == 0x67 && name[5] == 0x72 && name[6] == 0x61 && name[7] == 0x79 {
        // darkgray
        return Some(Color { red: 169, green: 169, blue: 169, alpha: 255 });
    }
    if n == 9 && name[0] == 0x64 && name[1] == 0x61 && name[2] == 0x72 && name[3] == 0x6b && name[4] == 0x67 && name[5] == 0x72 && name[6] == 0x65 && name[7] == 0x65 && name[8] == 0x6e {
        // darkgreen
        return Some(Color { red: 0, green: 100, blue: 0, alpha: 255 });
    }
    if n == 8 && name[0] == 0x64 && name[1] == 0x61 && name[2] == 0x72 && name[3] == 0x6b && name[4] == 0x67 && name[5] == 0x72 && name[6] == 0x65 && name[7] == 0x79 {
        // darkgrey
        return Some(Color { red: 169, green: 169, blue: 169, alpha: 255 });
    }
    if n == 9 && name[0] == 0x64 && name[1] == 0x61 && name[2] == 0x72 && name[3] == 0x6b && name[4] == 0x6b && name[5] == 0x68 && name[6] == 0x61 && name[7] == 0x6b && name[8] == 0x69 {
        // darkkhaki
        return Some(Color { red: 189, green: 183, blue: 107, alpha: 255 });
    }
    if n == 11 && name[0] == 0x64 && name[1] == 0x61 && name[2] == 0x72 && name[3] == 0x6b && name[4] == 0x6d && name[5] == 0x61 && name[6] == 0x67 && name[7] == 0x65 && name[8] == 0x6e && name[9] == 0x74 && name[10] == 0x61 {
        // darkmagenta
        return Some(Color { red: 139, green: 0, blue: 139, alpha: 255 });
    }
    if n == 14 && name[0] == 0x64 && name[1] == 0x61 && name[2] == 0x72 && name[3] == 0x6b && name[4] == 0x6f && name[5] == 0x6c && name[6] == 0x69 && name[7] == 0x76 && name[8] == 0x65 && name[9] == 0x67 && name[10] == 0x72 && name[11] == 0x65 && name[12] == 0x65 && name[13] == 0x6e {
        // darkolivegreen
        return Some(Color { red: 85, green: 107, blue: 47, alpha: 255 });
    }
    if n == 10 && name[0] == 0x64 && name[1] == 0x61 && name[2] == 0x72 && name[3] == 0x6b && name[4] == 0x6f && name[5] == 0x72 && name[6] == 0x61 && name[7] == 0x6e && name[8] == 0x67 && name[9] == 0x65 {
        // darkorange
        return Some(Color { red: 255, green: 140, blue: 0, alpha: 255 });
    }
    if n == 10 && name[0] == 0x64 && name[1] == 0x61 && name[2] == 0x72 && name[3] == 0x6b && name[4] == 0x6f && name[5] == 0x72 && name[6] == 0x63 && name[7] == 0x68 && name[8] == 0x69 && name[9] == 0x64 {
        // darkorchid
        return Some(Color { red: 153, green: 50, blue: 204, alpha: 255 });
    }
    if n == 7 && name[0] == 0x64 && name[1] == 0x61 && name[2] == 0x72 && name[3] == 0x6b && name[4] == 0x72 && name[5] == 0x65 && name[6] == 0x64 {
        // darkred
        return Some(Color { red: 139, green: 0, blue: 0, alpha: 255 });
    }
    if n == 10 && name[0] == 0x64 && name[1] == 0x61 && name[2] == 0x72 && name[3] == 0x6b && name[4] == 0x73 && name[5] == 0x61 && name[6] == 0x6c && name[7] == 0x6d && name[8] == 0x6f && name[9] == 0x6e {
        // darksalmon
        return Some(Color { red: 233, green: 150, blue: 122, alpha: 255 });
    }
    if n == 12 && name[0] == 0x64 && name[1] == 0x61 && name[2] == 0x72 && name[3] == 0x6b && name[4] == 0x73 && name[5] == 0x65 && name[6] == 0x61 && name[7] == 0x67 && name[8] == 0x72 && name[9] == 0x65 && name[10] == 0x65 && name[11] == 0x6e {
        // darkseagreen
        return Some(Color { red: 143, green: 188, blue: 143, alpha: 255 });
    }
    if n == 13 && name[0] == 0x64 && name[1] == 0x61 && name[2] == 0x72 && name[3] == 0x6b && name[4] == 0x73 && name[5] == 0x6c && name[6] == 0x61 && name[7] == 0x74 && name[8] == 0x65 && name[9] == 0x62 && name[10] == 0x6c && name[11] == 0x75 && name[12] == 0x65 {
        // darkslateblue
        return Some(Color { red: 72, green: 61, blue: 139, alpha: 255 });
    }
    if n == 13 && name[0] == 0x64 && name[1] == 0x61 && name[2] == 0x72 && name[3] == 0x6b && name[4] == 0x73 && name[5] == 0x6c && name[6] == 0x61 && name[7] == 0x74 && name[8] == 0x65 && name[9] == 0x67 && name[10] == 0x72 && name[11] == 0x61 && name[12] == 0x79 {
        // darkslategray
        return Some(Color { red: 47, green: 79, blue: 79, alpha: 255 });
    }
    if n == 13 && name[0] == 0x64 && name[1] == 0x61 && name[2] == 0x72 && name[3] == 0x6b && name[4] == 0x73 && name[5] == 0x6c && name[6] == 0x61 && name[7] == 0x74 && name[8] == 0x65 && name[9] == 0x67 && name[10] == 0x72 && name[11] == 0x65 && name[12] == 0x79 {
        // darkslategrey
        return Some(Color { red: 47, green: 79, blue: 79, alpha: 255 });
    }
    if n == 13 && name[0] == 0x64 && name[1] == 0x61 && name[2] == 0x72 && name[3] == 0x6b && name[4] == 0x74 && name[5] == 0x75 && name[6] == 0x72 && name[7] == 0x71 && name[8] == 0x75 && name[9] == 0x6f && name[10] == 0x69 && name[11] == 0x73 && name[12] == 0x65 {
        // darkturquoise
        return Some(Color { red: 0, green: 206, blue: 209, alpha: 255 });
    }
    if n == 10 && name[0] == 0x64 && name[1] == 0x61 && name[2] == 0x72 && name[3] == 0x6b && name[4] == 0x76 && name[5] == 0x69 && name[6] == 0x6f && name[7] == 0x6c && name[8] == 0x65 && name[9] == 0x74 {
        // darkviolet
        return Some(Color { red: 148, green: 0, blue: 211, alpha: 255 });
    }
    if n == 8 && name[0] == 0x64 && name[1] == 0x65 && name[2] == 0x65 && name[3] == 0x70 && name[4] == 0x70 && name[5] == 0x69 && name[6] == 0x6e && name[7] == 0x6b {
        // deeppink
        return Some(Color { red: 255, green: 20, blue: 147, alpha: 255 });
    }
    if n == 11 && name[0] == 0x64 && name[1] == 0x65 && name[2] == 0x65 && name[3] == 0x70 && name[4] == 0x73 && name[5] == 0x6b && name[6] == 0x79 && name[7] == 0x62 && name[8] == 0x6c && name[9] == 0x75 && name[10] == 0x65 {
        // deepskyblue
        return Some(Color { red: 0, green: 191, blue: 255, alpha: 255 });
    }
    if n == 7 && name[0] == 0x64 && name[1] == 0x69 && name[2] == 0x6d && name[3] == 0x67 && name[4] == 0x72 && name[5] == 0x61 && name[6] == 0x79 {
        // dimgray
        return Some(Color { red: 105, green: 105, blue: 105, alpha: 255 });
    }
    if n == 7 && name[0] == 0x64 && name[1] == 0x69 && name[2] == 0x6d && name[3] == 0x67 && name[4] == 0x72 && name[5] == 0x65 && name[6] == 0x79 {
        // dimgrey
        return Some(Color { red: 105, green: 105, blue: 105, alpha: 255 });
    }
    if n == 10 && name[0] == 0x64 && name[1] == 0x6f && name[2] == 0x64 && name[3] == 0x67 && name[4] == 0x65 && name[5] == 0x72 && name[6] == 0x62 && name[7] == 0x6c && name[8] == 0x75 && name[9] == 0x65 {
        // dodgerblue
        return Some(Color { red: 30, green: 144, blue: 255, alpha: 255 });
    }
    None
}

/// The named colors that start with `f`.
pub open spec fn named_color_f(name: Seq<u8>) -> Option<Color> {
    if name.len() == 9 && name[0] == 0x66 && name[1] == 0x69 && name[2] == 0x72 && name[3] == 0x65 && name[4] == 0x62 && name[5] == 0x72 && name[6] == 0x69 && name[7] == 0x63 && name[8] == 0x6b {
        // firebrick
        Some(Color { red: 178, green: 34, blue: 34, alpha: 255 })
    } else if name.len() == 11 && name[0] == 0x66 && name[1] == 0x6c && name[2] == 0x6f && name[3] == 0x72 && name[4] == 0x61 && name[5] == 0x6c && name[6] == 0x77 && name[7] == 0x68 && name[8] == 0x69 && name[9] == 0x74 && name[10] == 0x65 {
        // floralwhite
        Some(Color { red: 255, green: 250, blue: 240, alpha: 255 })
    } else if name.len() == 11 && name[0] == 0x66 && name[1] == 0x6f && name[2] == 0x72 && name[3] == 0x65 && name[4] == 0x73 && name[5] == 0x74 && name[6] == 0x67 && name[7] == 0x72 && name[8] == 0x65 && name[9] == 0x65 && name[10] == 0x6e {
        // forestgreen
        Some(Color { red: 34, green: 139, blue: 34, alpha: 255 })
    } else if name.len() == 7 && name[0] == 0x66 && name[1] == 0x75 && name[2] == 0x63 && name[3] == 0x68 && name[4] == 0x73 && name[5] == 0x69 && name[6] == 0x61 {
        // fuchsia
        Some(Color { red: 255, green: 0, blue: 255, alpha: 255 })
    } else {
        None
    }
}

fn find_named_color_f(name: &[u8]) -> (r: Option<Color>)
    ensures
        r == named_color_f(name@),
{
    let n = name.len();
    if n == 9 && name[0] == 0x66 && name[1] == 0x69 && name[2] == 0x72 && name[3] == 0x65 && name[4] == 0x62 && name[5] == 0x72 && name[6] == 0x69 && name[7] == 0x63 && name[8] == 0x6b {
        // firebrick
        return Some(Color { red: 178, green: 34, blue: 34, alpha: 255 });
    }
    if n == 11 && name[0] == 0x66 && name[1] == 0x6c && name[2] == 0x6f && name[3] == 0x72 && name[4] == 0x61 && name[5] == 0x6c && name[6] == 0x77 && name[7] == 0x68 && name[8] == 0x69 && name[9] == 0x74 && name[10] == 0x65 {
        // floralwhite
        return Some(Color { red: 255, green: 250, blue: 240, alpha: 255 });
    }
    if n == 11 && name[0] == 0x66 && name[1] == 0x6f && name[2] == 0x72 && name[3] == 0x65 && name[4] == 0x73 && name[5] == 0x74 && name[6] == 0x67 && name[7] == 0x72 && name[8] == 0x65 && name[9] == 0x65 && name[10] == 0x6e {
        // forestgreen
        return Some(Color { red: 34, green: 139, blue: 34, alpha: 255 });
    }
    if n == 7 && name[0] == 0x66 && name[1] == 0x75 && name[2] == 0x63 && name[3] == 0x68 && name[4] == 0x73 && name[5] == 0x69 && name[6] == 0x61 {
        // fuchsia
        return Some(Color { red: 255, green: 0, blue: 255, alpha: 255 });
    }
    None
}

/// The named colors that start with `g`.
pub open spec fn named_color_g(name: Seq<u8>) -> Option<Color> {
    if name.len() == 9 && name[0] == 0x67 && name[1] == 0x61 && name[2] == 0x69 && name[3] == 0x6e && name[4] == 0x73 && name[5] == 0x62 && name[6] == 0x6f && name[7] == 0x72 && name[8] == 0x6f {
        // gainsboro
        Some(Color { red: 220, green: 220, blue: 220, alpha: 255 })
    } else if name.len() == 10 && name[0] == 0x67 && name[1] == 0x68 && name[2] == 0x6f && name[3] == 0x73 && name[4] == 0x74 && name[5] == 0x77 && name[6] == 0x68 && name[7] == 0x69 && name[8] == 0x74 && name[9] == 0x65 {
        // ghostwhite
        Some(Color { red: 248, green: 248, blue: 255, alpha: 255 })
    } else if name.len() == 4 && name[0] == 0x67 && name[1] == 0x6f && name[2] == 0x6c && name[3] == 0x64 {
        // gold
        Some(Color { red: 255, green: 215, blue: 0, alpha: 255 })
    } else if name.len() == 9 && name[0] == 0x67 && name[1] == 0x6f && name[2] == 0x6c && name[3] == 0x64 && name[4] == 0x65 && name[5] == 0x6e && name[6] == 0x72 && name[7] == 0x6f && name[8] == 0x64 {
        // goldenrod
        Some(Color { red: 218, green: 165, blue: 32, alpha: 255 })
    } else if name.len() == 4 && name[0] == 0x67 && name[1] == 0x72 && name[2] == 0x61 && name[3] == 0x79 {
        // gray
        Some(Color { red: 128, green: 128, blue: 128, alpha: 255 })
    } else if name.len() == 5 && name[0] == 0x67 && name[1] == 0x72 && name[2] == 0x65 && name[3] == 0x65 && name[4] == 0x6e {
        // green
        Some(Color { red: 0, green: 128, blue: 0, alpha: 255 })
    } else if name.len() == 11 && name[0] == 0x67 && name[1] == 0x72 && name[2] == 0x65 && name[3] == 0x65 && name[4] == 0x6e && name[5] == 0x79 && name[6] == 0x65 && name[7] == 0x6c && name[8] == 0x6c && name[9] == 0x6f && name[10] == 0x77 {
        // greenyellow
        Some(Color { red: 173, green: 255, blue: 47, alpha: 255 })
    } else if name.len() == 4 && name[0] == 0x67 && name[1] == 0x72 && name[2] == 0x65 && name[3] == 0x79 {
        // grey
        Some(Color { red: 128, green: 128, blue: 128, alpha: 255 })
    } else {
        None
    }
}

fn find_named_color_g(name: &[u8]) -> (r: Option<Color>)
    ensures
        r == named_color_g(name@),
{
    let n = name.len();
    if n == 9 && name[0] == 0x67 && name[1] == 0x61 && name[2] == 0x69 && name[3] == 0x6e && name[4] == 0x73 && name[5] == 0x62 && name[6] == 0x6f && name[7] == 0x72 && name[8] == 0x6f {
        // gainsboro
        return Some(Color { red: 220, green: 220, blue: 220, alpha: 255 });
    }
    if n == 10 && name[0] == 0x67 && name[1] == 0x68 && name[2] == 0x6f && name[3] == 0x73 && name[4] == 0x74 && name[5] == 0x77 && name[6] == 0x68 && name[7] == 0x69 && name[8] == 0x74 && name[9] == 0x65 {
        // ghostwhite
        return Some(Color { red: 248, green: 248, blue: 255, alpha: 255 });
    }
    if n == 4 && name[0] == 0x67 && name[1] == 0x6f && name[2] == 0x6c && name[3] == 0x64 {
        // gold
        return Some(Color { red: 255, green: 215, blue: 0, alpha: 255 });
    }
    if n == 9 && name[0] == 0x67 && name[1] == 0x6f && name[2] == 0x6c && name[3] == 0x64 && name[4] == 0x65 && name[5] == 0x6e && name[6] == 0x72 && name[7] == 0x6f && name[8] == 0x64 {
        // goldenrod
        return Some(Color { red: 218, green: 165, blue: 32, alpha: 255 });
    }
    if n == 4 && name[0] == 0x67 && name[1] == 0x72 && name[2] == 0x61 && name[3] == 0x79 {
        // gray
        return Some(Color { red: 128, green: 128, blue: 128, alpha: 255 });
    }
    if n == 5 && name[0] == 0x67 && name[1] == 0x72 && name[2] == 0x65 && name[3] == 0x65 && name[4] == 0x6e {
        // green
        return Some(Color { red: 0, green: 128, blue: 0, alpha: 255 });
    }
    if n == 11 && name[0] == 0x67 && name[1] == 0x72 && name[2] == 0x65 && name[3] == 0x65 && name[4] == 0x6e && name[5] == 0x79 && name[6] == 0x65 && name[7] == 0x6c && name[8] == 0x6c && name[9] == 0x6f && name[10] == 0x77 {
        // greenyellow
        return Some(Color { red: 173, green: 255, blue: 47, alpha: 255 });
    }
    if n == 4 && name[0] == 0x67 && name[1] == 0x72 && name[2] == 0x65 && name[3] == 0x79 {
        // grey
        return Some(Color { red: 128, green: 128, blue: 128, alpha: 255 });
    }
    None
}

/// The named colors that start with `h`.
pub open spec fn named_color_h(name: Seq<u8>) -> Option<Color> {
    if name.len() == 8 && name[0] == 0x68 && name[1] == 0x6f && name[2] == 0x6e && name[3] == 0x65 && name[4] == 0x79 && name[5] == 0x64 && name[6] == 0x65 && name[7] == 0x77 {
        // honeydew
        Some(Color { red: 240, green: 255, blue: 240, alpha: 255 })
    } else if name.len() == 7 && name[0] == 0x68 && name[1] == 0x6f && name[2] == 0x74 && name[3] == 0x70 && name[4] == 0x69 && name[5] == 0x6e && name[6] == 0x6b {
        // hotpink
        Some(Color { red: 255, green: 105, blue: 180, alpha: 255 })
    } else {
        None
    }
}

fn find_named_color_h(name: &[u8]) -> (r: Option<Color>)
    ensures
        r == named_color_h(name@),
{
    let n = name.len();
    if n == 8 && name[0] == 0x68 && name[1] == 0x6f && name[2] == 0x6e && name[3] == 0x65 && name[4] == 0x79 && name[5] == 0x64 && name[6] == 0x65 && name[7] == 0x77 {
        // honeydew
        return Some(Color { red: 240, green: 255, blue: 240, alpha: 255 });
    }
    if n == 7 && name[0] == 0x68 && name[1] == 0x6f && name[2] == 0x74 && name[3] == 0x70 && name[4] == 0x69 && name[5] == 0x6e && name[6] == 0x6b {
        // hotpink
        return Some(Color { red: 255, green: 105, blue: 180, alpha: 255 });
    }
    None
}

/// The named colors that start with `i`.
pub open spec fn named_color_i(name: Seq<u8>) -> Option<Color> {
    if name.len() == 9 && name[0] == 0x69 && name[1] == 0x6e && name[2] == 0x64 && name[3] == 0x69 && name[4] == 0x61 && name[5] == 0x6e && name[6] == 0x72 && name[7] == 0x65 && name[8] == 0x64 {
        // indianred
        Some(Color { red: 205, green: 92, blue: 92, alpha: 255 })
    } else if name.len() == 6 && name[0] == 0x69 && name[1] == 0x6e && name[2] == 0x64 && name[3] == 0x69 && name[4] == 0x67 && name[5] == 0x6f {
        // indigo
        Some(Color { red: 75, green: 0, blue: 130, alpha: 255 })
    } else if name.len() == 5 && name[0] == 0x69 && name[1] == 0x76 && name[2] == 0x6f && name[3] == 0x72 && name[4] == 0x79 {
        // ivory
        Some(Color { red: 255, green: 255, blue: 240, alpha: 255 })
    } else {
        None
    }
}

fn find_named_color_i(name: &[u8]) -> (r: Option<Color>)
    ensures
        r == named_color_i(name@),
{
    let n = name.len();
    if n == 9 && name[0] == 0x69 && name[1] == 0x6e && name[2] == 0x64 && name[3] == 0x69 && name[4] == 0x61 && name[5] == 0x6e && name[6] == 0x72 && name[7] == 0x65 && name[8] == 0x64 {
        // indianred
        return Some(Color { red: 205, green: 92, blue: 92, alpha: 255 });
    }
    if n == 6 && name[0] == 0x69 && name[1] == 0x6e && name[2] == 0x64 && name[3] == 0x69 && name[4] == 0x67 && name[5] == 0x6f {
        // indigo
        return Some(Color { red: 75, green: 0, blue: 130, alpha: 255 });
    }
    if n == 5 && name[0] == 0x69 && name[1] == 0x76 && name[2] == 0x6f && name[3] == 0x72 && name[4] == 0x79 {
        // ivory
        return Some(Color { red: 255, green: 255, blue: 240, alpha: 255 });
    }
    None
}

/// The named colors that start with `k`.
pub open spec fn named_color_k(name: Seq<u8>) -> Option<Color> {
    if name.len() == 5 && name[0] == 0x6b && name[1] == 0x68 && name[2] == 0x61 && name[3] == 0x6b && name[4] == 0x69 {
        // khaki
        Some(Color { red: 240, green: 230, blue: 140, alpha: 255 })
    } else {
        None
    }
}

fn find_named_color_k(name: &[u8]) -> (r: Option<Color>)
    ensures
        r == named_color_k(name@),
{
    let n = name.len();
    if n == 5 && name[0] == 0x6b && name[1] == 0x68 && name[2] == 0x61 && name[3] == 0x6b && name[4] == 0x69 {
        // khaki
        return Some(Color { red: 240, green: 230, blue: 140, alpha: 255 });
    }
    None
}

/// The named colors that start with `l`.
pub open spec fn named_color_l(name: Seq<u8>) -> Option<Color> {
    if name.len() == 8 && name[0] == 0x6c && name[1] == 0x61 && name[2] == 0x76 && name[3] == 0x65 && name[4] == 0x6e && name[5] == 0x64 && name[6] == 0x65 && name[7] == 0x72 {
        // lavender
        Some(Color { red: 230, green: 230, blue: 250, alpha: 255 })
    } else if name.len() == 13 && name[0] == 0x6c && name[1] == 0x61 && name[2] == 0x76 && name[3] == 0x65 && name[4] == 0x6e && name[5] == 0x64 && name[6] == 0x65 && name[7] == 0x72 && name[8] == 0x62 && name[9] == 0x6c && name[10] == 0x75 && name[11] == 0x73 && name[12] == 0x68 {
        // lavenderblush
        Some(Color { red: 255, green: 240, blue: 245, alpha: 255 })
    } else if name.len() == 9 && name[0] == 0x6c && name[1] == 0x61 && name[2] == 0x77 && name[3] == 0x6e && name[4] == 0x67 && name[5] == 0x72 && name[6] == 0x65 && name[7] == 0x65 && name[8] == 0x6e {
        // lawngreen
        Some(Color { red: 124, green: 252, blue: 0, alpha: 255 })
    } else if name.len() == 12 && name[0] == 0x6c && name[1] == 0x65 && name[2] == 0x6d && name[3] == 0x6f && name[4] == 0x6e && name[5] == 0x63 && name[6] == 0x68 && name[7] == 0x69 && name[8] == 0x66 && name[9] == 0x66 && name[10] == 0x6f && name[11] == 0x6e {
        // lemonchiffon
        Some(Color { red: 255, green: 250, blue: 205, alpha: 255 })
    } else if name.len() == 9 && name[0] == 0x6c && name[1] == 0x69 && name[2] == 0x67 && name[3] == 0x68 && name[4] == 0x74 && name[5] == 0x62 && name[6] == 0x6c && name[7] == 0x75 && name[8] == 0x65 {
        // lightblue
        Some(Color { red: 173, green: 216, blue: 230, alpha: 255 })
    } else if name.len() == 10 && name[0] == 0x6c && name[1] == 0x69 && name[2] == 0x67 && name[3] == 0x68 && name[4] == 0x74 && name[5] == 0x63 && name[6] == 0x6f && name[7] == 0x72 && name[8] == 0x61 && name[9] == 0x6c {
        // lightcoral
        Some(Color { red: 240, green: 128, blue: 128, alpha: 255 })
    } else if name.len() == 9 && name[0] == 0x6c && name[1] == 0x69 && name[2] == 0x67 && name[3] == 0x68 && name[4] == 0x74 && name[5] == 0x63 && name[6] == 0x79 && name[7] == 0x61 && name[8] == 0x6e {
        // lightcyan
        Some(Color { red: 224, green: 255, blue: 255, alpha: 255 })
    } else if name.len() == 20 && name[0] == 0x6c && name[1] == 0x69 && name[2] == 0x67 && name[3] == 0x68 && name[4] == 0x74 && name[5] == 0x67 && name[6] == 0x6f && name[7] == 0x6c && name[8] == 0x64 && name[9] == 0x65 && name[10] == 0x6e && name[11] == 0x72 && name[12] == 0x6f && name[13] == 0x64 && name[14] == 0x79 && name[15] == 0x65 && name[16] == 0x6c && name[17] == 0x6c && name[18] == 0x6f && name[19] == 0x77 {
        // lightgoldenrodyellow
        Some(Color { red: 250, green: 250, blue: 210, alpha: 255 })
    } else if name.len() == 9 && name[0] == 0x6c && name[1] == 0x69 && name[2] == 0x67 && name[3] == 0x68 && name[4] == 0x74 && name[5] == 0x67 && name[6] == 0x72 && name[7] == 0x61 && name[8] == 0x79 {
        // lightgray
        Some(Color { red: 211, green: 211, blue: 211, alpha: 255 })
    } else if name.len() == 10 && name[0] == 0x6c && name[1] == 0x69 && name[2] == 0x67 && name[3] == 0x68 && name[4] == 0x74 && name[5] == 0x67 && name[6] == 0x72 && name[7] == 0x65 && name[8] == 0x65 && name[9] == 0x6e {
        // lightgreen
        Some(Color { red: 144, green: 238, blue: 144, alpha: 255 })
    } else if name.len() == 9 && name[0] == 0x6c && name[1] == 0x69 && name[2] == 0x67 && name[3] == 0x68 && name[4] == 0x74 && name[5] == 0x67 && name[6] == 0x72 && name[7] == 0x65 && name[8] == 0x79 {
        // lightgrey
        Some(Color { red: 211, green: 211, blue: 211, alpha: 255 })
    } else if name.len() == 9 && name[0] == 0x6c && name[1] == 0x69 && name[2] == 0x67 && name[3] == 0x68 && name[4] == 0x74 && name[5] == 0x70 && name[6] == 0x69 && name[7] == 0x6e && name[8] == 0x6b {
        // lightpink
        Some(Color { red: 255, green: 182, blue: 193, alpha: 255 })
    } else if name.len() == 11 && name[0] == 0x6c && name[1] == 0x69 && name[2] == 0x67 && name[3] == 0x68 && name[4] == 0x74 && name[5] == 0x73 && name[6] == 0x61 && name[7] == 0x6c && name[8] == 0x6d && name[9] == 0x6f && name[10] == 0x6e {
        // lightsalmon
        Some(Color { red: 255, green: 160, blue: 122, alpha: 255 })
    } else if name.len() == 13 && name[0] == 0x6c && name[1] == 0x69 && name[2] == 0x67 && name[3] == 0x68 && name[4] == 0x74 && name[5] == 0x73 && name[6] == 0x65 && name[7] == 0x61 && name[8] == 0x67 && name[9] == 0x72 && name[10] == 0x65 && name[11] == 0x65 && name[12] == 0x6e {
        // lightseagreen
        Some(Color { red: 32, green: 178, blue: 170, alpha: 255 })
    } else if name.len() == 12 && name[0] == 0x6c && name[1] == 0x69 && name[2] == 0x67 && name[3] == 0x68 && name[4] == 0x74 && name[5] == 0x73 && name[6] == 0x6b && name[7] == 0x79 && name[8] == 0x62 && name[9] == 0x6c && name[10] == 0x75 && name[11] == 0x65 {
        // lightskyblue
        Some(Color { red: 135, green: 206, blue: 250, alpha: 255 })
    } else if name.len() == 14 && name[0] == 0x6c && name[1] == 0x69 && name[2] == 0x67 && name[3] == 0x68 && name[4] == 0x74 && name[5] == 0x73 && name[6] == 0x6c && name[7] == 0x61 && name[8] == 0x74 && name[9] == 0x65 && name[10] == 0x67 && name[11] == 0x72 && name[12] == 0x61 && name[13] == 0x79 {
        // lightslategray
        Some(Color { red: 119, green: 136, blue: 153, alpha: 255 })
    } else if name.len() == 14 && name[0] == 0x6c && name[1] == 0x69 && name[2] == 0x67 && name[3] == 0x68 && name[4] == 0x74 && name[5] == 0x73 && name[6] == 0x6c && name[7] == 0x61 && name[8] == 0x74 && name[9] == 0x65 && name[10] == 0x67 && name[11] == 0x72 && name[12] == 0x65 && name[13] == 0x79 {
        // lightslategrey
        Some(Color { red: 119, green: 136, blue: 153, alpha: 255 })
    } else if name.len() == 14 && name[0] == 0x6c && name[1] == 0x69 && name[2] == 0x67 && name[3] == 0x68 && name[4] == 0x74 && name[5] == 0x73 && name[6] == 0x74 && name[7] == 0x65 && name[8] == 0x65 && name[9] == 0x6c && name[10] == 0x62 && name[11] == 0x6c && name[12] == 0x75 && name[13] == 0x65 {
        // lightsteelblue
        Some(Color { red: 176, green: 196, blue: 222, alpha: 255 })
    } else if name.len() == 11 && name[0] == 0x6c && name[1] == 0x69 && name[2] == 0x67 && name[3] == 0x68 && name[4] == 0x74 && name[5] == 0x79 && name[6] == 0x65 && name[7] == 0x6c && name[8] == 0x6c && name[9] == 0x6f && name[10] == 0x77 {
        // lightyellow
        Some(Color { red: 255, green: 255, blue: 224, alpha: 255 })
    } else if name.len() == 4 && name[0] == 0x6c && name[1] == 0x69 && name[2] == 0x6d && name[3] == 0x65 {
        // lime
        Some(Color { red: 0, green: 255, blue: 0, alpha: 255 })
    } else if name.len() == 9 && name[0] == 0x6c && name[1] == 0x69 && name[2] == 0x6d && name[3] == 0x65 && name[4] == 0x67 && name[5] == 0x72 && name[6] == 0x65 && name[7] == 0x65 && name[8] == 0x6e {
        // limegreen
        Some(Color { red: 50, green: 205, blue: 50, alpha: 255 })
    } else if name.len() == 5 && name[0] == 0x6c && name[1] == 0x69 && name[2] == 0x6e && name[3] == 0x65 && name[4] == 0x6e {
        // linen
        Some(Color { red: 250, green: 240, blue: 230, alpha: 255 })
    } else {
        None
    }
}

fn find_named_color_l(name: &[u8]) -> (r: Option<Color>)
    ensures
        r == named_color_l(name@),
{
    let n = name.len();
    if n == 8 && name[0] == 0x6c && name[1] == 0x61 && name[2] == 0x76 && name[3] == 0x65 && name[4] == 0x6e && name[5] == 0x64 && name[6] == 0x65 && name[7] == 0x72 {
        // lavender
        return Some(Color { red: 230, green: 230, blue: 250, alpha: 255 });
    }
    if n == 13 && name[0] == 0x6c && name[1] == 0x61 && name[2] == 0x76 && name[3] == 0x65 && name[4] == 0x6e && name[5] == 0x64 && name[6] == 0x65 && name[7] == 0x72 && name[8] == 0x62 && name[9] == 0x6c && name[10] == 0x75 && name[11] == 0x73 && name[12] == 0x68 {
        // lavenderblush
        return Some(Color { red: 255, green: 240, blue: 245, alpha: 255 });
    }
    if n == 9 && name[0] == 0x6c && name[1] == 0x61 && name[2] == 0x77 && name[3] == 0x6e && name[4] == 0x67 && name[5] == 0x72 && name[6] == 0x65 && name[7] == 0x65 && name[8] == 0x6e {
        // lawngreen
        return Some(Color { red: 124, green: 252, blue: 0, alpha: 255 });
    }
    if n == 12 && name[0] == 0x6c && name[1] == 0x65 && name[2] == 0x6d && name[3] == 0x6f && name[4] == 0x6e && name[5] == 0x63 && name[6] == 0x68 && name[7] == 0x69 && name[8] == 0x66 && name[9] == 0x66 && name[10] == 0x6f && name[11] == 0x6e {
        // lemonchiffon
        return Some(Color { red: 255, green: 250, blue: 205, alpha: 255 });
    }
    if n == 9 && name[0] == 0x6c && name[1] == 0x69 && name[2] == 0x67 && name[3] == 0x68 && name[4] == 0x74 && name[5] == 0x62 && name[6] == 0x6c && name[7] == 0x75 && name[8] == 0x65 {
        // lightblue
        return Some(Color { red: 173, green: 216, blue: 230, alpha: 255 });
    }
    if n == 10 && name[0] == 0x6c && name[1] == 0x69 && name[2] == 0x67 && name[3] == 0x68 && name[4] == 0x74 && name[5] == 0x63 && name[6] == 0x6f && name[7] == 0x72 && name[8] == 0x61 && name[9] == 0x6c {
        // lightcoral
        return Some(Color { red: 240, green: 128, blue: 128, alpha: 255 });
    }
    if n == 9 && name[0] == 0x6c && name[1] == 0x69 && name[2] == 0x67 && name[3] == 0x68 && name[4] == 0x74 && name[5] == 0x63 && name[6] == 0x79 && name[7] == 0x61 && name[8] == 0x6e {
        // lightcyan
        return Some(Color { red: 224, green: 255, blue: 255, alpha: 255 });
    }
    if n == 20 && name[0] == 0x6c && name[1] == 0x69 && name[2] == 0x67 && name[3] == 0x68 && name[4] == 0x74 && name[5] == 0x67 && name[6] == 0x6f && name[7] == 0x6c && name[8] == 0x64 && name[9] == 0x65 && name[10] == 0x6e && name[11] == 0x72 && name[12] == 0x6f && name[13] == 0x64 && name[14] == 0x79 && name[15] == 0x65 && name[16] == 0x6c && name[17] == 0x6c && name[18] == 0x6f && name[19] == 0x77 {
        // lightgoldenrodyellow
        return Some(Color { red: 250, green: 250, blue: 210, alpha: 255 });
    }
    if n == 9 && name[0] == 0x6c && name[1] == 0x69 && name[2] == 0x67 && name[3] == 0x68 && name[4] == 0x74 && name[5] == 0x67 && name[6] == 0x72 && name[7] == 0x61 && name[8] == 0x79 {
        // lightgray
        return Some(Color { red: 211, green: 211, blue: 211, alpha: 255 });
    }
    if n == 10 && name[0] == 0x6c && name[1] == 0x69 && name[2] == 0x67 && name[3] == 0x68 && name[4] == 0x74 && name[5] == 0x67 && name[6] == 0x72 && name[7] == 0x65 && name[8] == 0x65 && name[9] == 0x6e {
        // lightgreen
        return Some(Color { red: 144, green: 238, blue: 144, alpha: 255 });
    }
    if n == 9 && name[0] == 0x6c && name[1] == 0x69 && name[2] == 0x67 && name[3] == 0x68 && name[4] == 0x74 && name[5] == 0x67 && name[6] == 0x72 && name[7] == 0x65 && name[8] == 0x79 {
        // lightgrey
        return Some(Color { red: 211, green: 211, blue: 211, alpha: 255 });
    }
    if n == 9 && name[0] == 0x6c && name[1] == 0x69 && name[2] == 0x67 && name[3] == 0x68 && name[4] == 0x74 && name[5] == 0x70 && name[6] == 0x69 && name[7] == 0x6e && name[8] == 0x6b {
        // lightpink
        return Some(Color { red: 255, green: 182, blue: 193, alpha: 255 });
    }
    if n == 11 && name[0] == 0x6c && name[1] == 0x69 && name[2] == 0x67 && name[3] == 0x68 && name[4] == 0x74 && name[5] == 0x73 && name[6] == 0x61 && name[7] == 0x6c && name[8] == 0x6d && name[9] == 0x6f && name[10] == 0x6e {
        // lightsalmon
        return Some(Color { red: 255, green: 160, blue: 122, alpha: 255 });
    }
    if n == 13 && name[0] == 0x6c && name[1] == 0x69 && name[2] == 0x67 && name[3] == 0x68 && name[4] == 0x74 && name[5] == 0x73 && name[6] == 0x65 && name[7] == 0x61 && name[8] == 0x67 && name[9] == 0x72 && name[10] == 0x65 && name[11] == 0x65 && name[12] == 0x6e {
        // lightseagreen
        return Some(Color { red: 32, green: 178, blue: 170, alpha: 255 });
    }
    if n == 12 && name[0] == 0x6c && name[1] == 0x69 && name[2] == 0x67 && name[3] == 0x68 && name[4] == 0x74 && name[5] == 0x73 && name[6] == 0x6b && name[7] == 0x79 && name[8] == 0x62 && name[9] == 0x6c && name[10] == 0x75 && name[11] == 0x65 {
        // lightskyblue
        return Some(Color { red: 135, green: 206, blue: 250, alpha: 255 });
    }
    if n == 14 && name[0] == 0x6c && name[1] == 0x69 && name[2] == 0x67 && name[3] == 0x68 && name[4] == 0x74 && name[5] == 0x73 && name[6] == 0x6c && name[7] == 0x61 && name[8] == 0x74 && name[9] == 0x65 && name[10] == 0x67 && name[11] == 0x72 && name[12] == 0x61 && name[13] == 0x79 {
        // lightslategray
        return Some(Color { red: 119, green: 136, blue: 153, alpha: 255 });
    }
    if n == 14 && name[0] == 0x6c && name[1] == 0x69 && name[2] == 0x67 && name[3] == 0x68 && name[4] == 0x74 && name[5] == 0x73 && name[6] == 0x6c && name[7] == 0x61 && name[8] == 0x74 && name[9] == 0x65 && name[10] == 0x67 && name[11] == 0x72 && name[12] == 0x65 && name[13] == 0x79 {
        // lightslategrey
        return Some(Color { red: 119, green: 136, blue: 153, alpha: 255 });
    }
    if n == 14 && name[0] == 0x6c && name[1] == 0x69 && name[2] == 0x67 && name[3] == 0x68 && name[4] == 0x74 && name[5] == 0x73 && name[6] == 0x74 && name[7] == 0x65 && name[8] == 0x65 && name[9] == 0x6c && name[10] == 0x62 && name[11] == 0x6c && name[12] == 0x75 && name[13] == 0x65 {
        // lightsteelblue
        return Some(Color { red: 176, green: 196, blue: 222, alpha: 255 });
    }
    if n == 11 && name[0] == 0x6c && name[1] == 0x69 && name[2] == 0x67 && name[3] == 0x68 && name[4] == 0x74 && name[5] == 0x79 && name[6] == 0x65 && name[7] == 0x6c && name[8] == 0x6c && name[9] == 0x6f && name[10] == 0x77 {
        // lightyellow
        return Some(Color { red: 255, green: 255, blue: 224, alpha: 255 });
    }
    if n == 4 && name[0] == 0x6c && name[1] == 0x69 && name[2] == 0x6d && name[3] == 0x65 {
        // lime
        return Some(Color { red: 0, green: 255, blue: 0, alpha: 255 });
    }
    if n == 9 && name[0] == 0x6c && name[1] == 0x69 && name[2] == 0x6d && name[3] == 0x65 && name[4] == 0x67 && name[5] == 0x72 && name[6] == 0x65 && name[7] == 0x65 && name[8] == 0x6e {
        // limegreen
        return Some(Color { red: 50, green: 205, blue: 50, alpha: 255 });
    }
    if n == 5 && name[0] == 0x6c && name[1] == 0x69 && name[2] == 0x6e && name[3] == 0x65 && name[4] == 0x6e {
        // linen
        return Some(Color { red: 250, green: 240, blue: 230, alpha: 255 });
    }
    None
}

/// The named colors that start with `m`.
pub open spec fn named_color_m(name: Seq<u8>) -> Option<Color> {
    if name.len() == 7 && name[0] == 0x6d && name[1] == 0x61 && name[2] == 0x67 && name[3] == 0x65 && name[4] == 0x6e && name[5] == 0x74 && name[6] == 0x61 {
        // magenta
        Some(Color { red: 255, green: 0, blue: 255, alpha: 255 })
    } else if name.len() == 6 && name[0] == 0x6d && name[1] == 0x61 && name[2] == 0x72 && name[3] == 0x6f && name[4] == 0x6f && name[5] == 0x6e {
        // maroon
        Some(Color { red: 128, green: 0, blue: 0, alpha: 255 })
    } else if name.len() == 16 && name[0] == 0x6d && name[1] == 0x65 && name[2] == 0x64 && name[3] == 0x69 && name[4] == 0x75 && name[5] == 0x6d && name[6] == 0x61 && name[7] == 0x71 && name[8] == 0x75 && name[9] == 0x61 && name[10] == 0x6d && name[11] == 0x61 && name[12] == 0x72 && name[13] == 0x69 && name[14] == 0x6e && name[15] == 0x65 {
        // mediumaquamarine
        Some(Color { red: 102, green: 205, blue: 170, alpha: 255 })
    } else if name.len() == 10 && name[0] == 0x6d && name[1] == 0x65 && name[2] == 0x64 && name[3] == 0x69 && name[4] == 0x75 && name[5] == 0x6d && name[6] == 0x62 && name[7] == 0x6c && name[8] == 0x75 && name[9] == 0x65 {
        // mediumblue
        Some(Color { red: 0, green: 0, blue: 205, alpha: 255 })
    } else if name.len() == 12 && name[0] == 0x6d && name[1] == 0x65 && name[2] == 0x64 && name[3] == 0x69 && name[4] == 0x75 && name[5] == 0x6d && name[6] == 0x6f && name[7] == 0x72 && name[8] == 0x63 && name[9] == 0x68 && name[10] == 0x69 && name[11] == 0x64 {
        // mediumorchid
        Some(Color { red: 186, green: 85, blue: 211, alpha: 255 })
    } else if name.len() == 12 && name[0] == 0x6d && name[1] == 0x65 && name[2] == 0x64 && name[3] == 0x69 && name[4] == 0x75 && name[5] == 0x6d && name[6] == 0x70 && name[7] == 0x75 && name[8] == 0x72 && name[9] == 0x70 && name[10] == 0x6c && name[11] == 0x65 {
        // mediumpurple
        Some(Color { red: 147, green: 112, blue: 219, alpha: 255 })
    } else if name.len() == 14 && name[0] == 0x6d && name[1] == 0x65 && name[2] == 0x64 && name[3] == 0x69 && name[4] == 0x75 && name[5] == 0x6d && name[6] == 0x73 && name[7] == 0x65 && name[8] == 0x61 && name[9] == 0x67 && name[10] == 0x72 && name[11] == 0x65 && name[12] == 0x65 && name[13] == 0x6e {
        // mediumseagreen
        Some(Color { red: 60, green: 179, blue: 113, alpha: 255 })
    } else if name.len() == 15 && name[0] == 0x6d && name[1] == 0x65 && name[2] == 0x64 && name[3] == 0x69 && name[4] == 0x75 && name[5] == 0x6d && name[6] == 0x73 && name[7] == 0x6c && name[8] == 0x61 && name[9] == 0x74 && name[10] == 0x65 && name[11] == 0x62 && name[12] == 0x6c && name[13] == 0x75 && name[14] == 0x65 {
        // mediumslateblue
        Some(Color { red: 123, green: 104, blue: 238, alpha: 255 })
    } else if name.len() == 17 && name[0] == 0x6d && name[1] == 0x65 && name[2] == 0x64 && name[3] == 0x69 && name[4] == 0x75 && name[5] == 0x6d && name[6] == 0x73 && name[7] == 0x70 && name[8] == 0x72 && name[9] == 0x69 && name[10] == 0x6e && name[11] == 0x67 && name[12] == 0x67 && name[13] == 0x72 && name[14] == 0x65 && name[15] == 0x65 && name[16] == 0x6e {
        // mediumspringgreen
        Some(Color { red: 0, green: 250, blue: 154, alpha: 255 })
    } else if name.len() == 15 && name[0] == 0x6d && name[1] == 0x65 && name[2] == 0x64 && name[3] == 0x69 && name[4] == 0x75 && name[5] == 0x6d && name[6] == 0x74 && name[7] == 0x75 && name[8] == 0x72 && name[9] == 0x71 && name[10] == 0x75 && name[11] == 0x6f && name[12] == 0x69 && name[13] == 0x73 && name[14] == 0x65 {
        // mediumturquoise
        Some(Color { red: 72, green: 209, blue: 204, alpha: 255 })
    } else if name.len() == 15 && name[0] == 0x6d && name[1] == 0x65 && name[2] == 0x64 && name[3] == 0x69 && name[4] == 0x75 && name[5] == 0x6d && name[6] == 0x76 && name[7] == 0x69 && name[8] == 0x6f && name[9] == 0x6c && name[10] == 0x65 && name[11] == 0x74 && name[12] == 0x72 && name[13] == 0x65 && name[14] == 0x64 {
        // mediumvioletred
        Some(Color { red: 199, green: 21, blue: 133, alpha: 255 })
    } else if name.len() == 12 && name[0] == 0x6d && name[1] == 0x69 && name[2] == 0x64 && name[3] == 0x6e && name[4] == 0x69 && name[5] == 0x67 && name[6] == 0x68 && name[7] == 0x74 && name[8] == 0x62 && name[9] == 0x6c && name[10] == 0x75 && name[11] == 0x65 {
        // midnightblue
        Some(Color { red: 25, green: 25, blue: 112, alpha: 255 })
    } else if name.len() == 9 && name[0] == 0x6d && name[1] == 0x69 && name[2] == 0x6e && name[3] == 0x74 && name[4] == 0x63 && name[5] == 0x72 && name[6] == 0x65 && name[7] == 0x61 && name[8] == 0x6d {
        // mintcream
        Some(Color { red: 245, green: 255, blue: 250, alpha: 255 })
    } else if name.len() == 9 && name[0] == 0x6d && name[1] == 0x69 && name[2] == 0x73 && name[3] == 0x74 && name[4] == 0x79 && name[5] == 0x72 && name[6] == 0x6f && name[7] == 0x73 && name[8] == 0x65 {
        // mistyrose
        Some(Color { red: 255, green: 228, blue: 225, alpha: 255 })
    } else if name.len() == 8 && name[0] == 0x6d && name[1] == 0x6f && name[2] == 0x63 && name[3] == 0x63 && name[4] == 0x61 && name[5] == 0x73 && name[6] == 0x69 && name[7] == 0x6e {
        // moccasin
        Some(Color { red: 255, green: 228, blue: 181, alpha: 255 })
    } else {
        None
    }
}

fn find_named_color_m(name: &[u8]) -> (r: Option<Color>)
    ensures
        r == named_color_m(name@),
{
    let n = name.len();
    if n == 7 && name[0] == 0x6d && name[1] == 0x61 && name[2] == 0x67 && name[3] == 0x65 && name[4] == 0x6e && name[5] == 0x74 && name[6] == 0x61 {
        // magenta
        return Some(Color { red: 255, green: 0, blue: 255, alpha: 255 });
    }
    if n == 6 && name[0] == 0x6d && name[1] == 0x61 && name[2] == 0x72 && name[3] == 0x6f && name[4] == 0x6f && name[5] == 0x6e {
        // maroon
        return Some(Color { red: 128, green: 0, blue: 0, alpha: 255 });
    }
    if n == 16 && name[0] == 0x6d && name[1] == 0x65 && name[2] == 0x64 && name[3] == 0x69 && name[4] == 0x75 && name[5] == 0x6d && name[6] == 0x61 && name[7] == 0x71 && name[8] == 0x75 && name[9] == 0x61 && name[10] == 0x6d && name[11] == 0x61 && name[12] == 0x72 && name[13] == 0x69 && name[14] == 0x6e && name[15] == 0x65 {
        // mediumaquamarine
        return Some(Color { red: 102, green: 205, blue: 170, alpha: 255 });
    }
    if n == 10 && name[0] == 0x6d && name[1] == 0x65 && name[2] == 0x64 && name[3] == 0x69 && name[4] == 0x75 && name[5] == 0x6d && name[6] == 0x62 && name[7] == 0x6c && name[8] == 0x75 && name[9] == 0x65 {
        // mediumblue
        return Some(Color { red: 0, green: 0, blue: 205, alpha: 255 });
    }
    if n == 12 && name[0] == 0x6d && name[1] == 0x65 && name[2] == 0x64 && name[3] == 0x69 && name[4] == 0x75 && name[5] == 0x6d && name[6] == 0x6f && name[7] == 0x72 && name[8] == 0x63 && name[9] == 0x68 && name[10] == 0x69 && name[11] == 0x64 {
        // mediumorchid
        return Some(Color { red: 186, green: 85, blue: 211, alpha: 255 });
    }
    if n == 12 && name[0] == 0x6d && name[1] == 0x65 && name[2] == 0x64 && name[3] == 0x69 && name[4] == 0x75 && name[5] == 0x6d && name[6] == 0x70 && name[7] == 0x75 && name[8] == 0x72 && name[9] == 0x70 && name[10] == 0x6c && name[11] == 0x65 {
        // mediumpurple
        return Some(Color { red: 147, green: 112, blue: 219, alpha: 255 });
    }
    if n == 14 && name[0] == 0x6d && name[1] == 0x65 && name[2] == 0x64 && name[3] == 0x69 && name[4] == 0x75 && name[5] == 0x6d && name[6] == 0x73 && name[7] == 0x65 && name[8] == 0x61 && name[9] == 0x67 && name[10] == 0x72 && name[11] == 0x65 && name[12] == 0x65 && name[13] == 0x6e {
        // mediumseagreen
        return Some(Color { red: 60, green: 179, blue: 113, alpha: 255 });
    }
    if n == 15 && name[0] == 0x6d && name[1] == 0x65 && name[2] == 0x64 && name[3] == 0x69 && name[4] == 0x75 && name[5] == 0x6d && name[6] == 0x73 && name[7] == 0x6c && name[8] == 0x61 && name[9] == 0x74 && name[10] == 0x65 && name[11] == 0x62 && name[12] == 0x6c && name[13] == 0x75 && name[14] == 0x65 {
        // mediumslateblue
        return Some(Color { red: 123, green: 104, blue: 238, alpha: 255 });
    }
    if n == 17 && name[0] == 0x6d && name[1] == 0x65 && name[2] == 0x64 && name[3] == 0x69 && name[4] == 0x75 && name[5] == 0x6d && name[6] == 0x73 && name[7] == 0x70 && name[8] == 0x72 && name[9] == 0x69 && name[10] == 0x6e && name[11] == 0x67 && name[12] == 0x67 && name[13] == 0x72 && name[14] == 0x65 && name[15] == 0x65 && name[16] == 0x6e {
        // mediumspringgreen
        return Some(Color { red: 0, green: 250, blue: 154, alpha: 255 });
    }
    if n == 15 && name[0] == 0x6d && name[1] == 0x65 && name[2] == 0x64 && name[3] == 0x69 && name[4] == 0x75 && name[5] == 0x6d && name[6] == 0x74 && name[7] == 0x75 && name[8] == 0x72 && name[9] == 0x71 && name[10] == 0x75 && name[11] == 0x6f && name[12] == 0x69 && name[13] == 0x73 && name[14] == 0x65 {
        // mediumturquoise
        return Some(Color { red: 72, green: 209, blue: 204, alpha: 255 });
    }
    if n == 15 && name[0] == 0x6d && name[1] == 0x65 && name[2] == 0x64 && name[3] == 0x69 && name[4] == 0x75 && name[5] == 0x6d && name[6] == 0x76 && name[7] == 0x69 && name[8] == 0x6f && name[9] == 0x6c && name[10] == 0x65 && name[11] == 0x74 && name[12] == 0x72 && name[13] == 0x65 && name[14] == 0x64 {
        // mediumvioletred
        return Some(Color { red: 199, green: 21, blue: 133, alpha: 255 });
    }
    if n == 12 && name[0] == 0x6d && name[1] == 0x69 && name[2] == 0x64 && name[3] == 0x6e && name[4] == 0x69 && name[5] == 0x67 && name[6] == 0x68 && name[7] == 0x74 && name[8] == 0x62 && name[9] == 0x6c && name[10] == 0x75 && name[11] == 0x65 {
        // midnightblue
        return Some(Color { red: 25, green: 25, blue: 112, alpha: 255 });
    }
    if n == 9 && name[0] == 0x6d && name[1] == 0x69 && name[2] == 0x6e && name[3] == 0x74 && name[4] == 0x63 && name[5] == 0x72 && name[6] == 0x65 && name[7] == 0x61 && name[8] == 0x6d {
        // mintcream
        return Some(Color { red: 245, green: 255, blue: 250, alpha: 255 });
    }
    if n == 9 && name[0] == 0x6d && name[1] == 0x69 && name[2] == 0x73 && name[3] == 0x74 && name[4] == 0x79 && name[5] == 0x72 && name[6] == 0x6f && name[7] == 0x73 && name[8] == 0x65 {
        // mistyrose
        return Some(Color { red: 255, green: 228, blue: 225, alpha: 255 });
    }
    if n == 8 && name[0] == 0x6d && name[1] == 0x6f && name[2] == 0x63 && name[3] == 0x63 && name[4] == 0x61 && name[5] == 0x73 && name[6] == 0x69 && name[7] == 0x6e {
        // moccasin
        return Some(Color { red: 255, green: 228, blue: 181, alpha: 255 });
    }
    None
}

/// The named colors that start with `n`.
pub open spec fn named_color_n(name: Seq<u8>) -> Option<Color> {
    if name.len() == 11 && name[0] == 0x6e && name[1] == 0x61 && name[2] == 0x76 && name[3] == 0x61 && name[4] == 0x6a && name[5] == 0x6f && name[6] == 0x77 && name[7] == 0x68 && name[8] == 0x69 && name[9] == 0x74 && name[10] == 0x65 {
        // navajowhite
        Some(Color { red: 255, green: 222, blue: 173, alpha: 255 })
    } else if name.len() == 4 && name[0] == 0x6e && name[1] == 0x61 && name[2] == 0x76 && name[3] == 0x79 {
        // navy
        Some(Color { red: 0, green: 0, blue: 128, alpha: 255 })
    } else {
        None
    }
}

fn find_named_color_n(name: &[u8]) -> (r: Option<Color>)
    ensures
        r == named_color_n(name@),
{
    let n = name.len();
    if n == 11 && name[0] == 0x6e && name[1] == 0x61 && name[2] == 0x76 && name[3] == 0x61 && name[4] == 0x6a && name[5] == 0x6f && name[6] == 0x77 && name[7] == 0x68 && name[8] == 0x69 && name[9] == 0x74 && name[10] == 0x65 {
        // navajowhite
        return Some(Color { red: 255, green: 222, blue: 173, alpha: 255 });
    }
    if n == 4 && name[0] == 0x6e && name[1] == 0x61 && name[2] == 0x76 && name[3] == 0x79 {
        // navy
        return Some(Color { red: 0, green: 0, blue: 128, alpha: 255 });
    }
    None
}

/// The named colors that start with `o`.
pub open spec fn named_color_o(name: Seq<u8>) -> Option<Color> {
    if name.len() == 7 && name[0] == 0x6f && name[1] == 0x6c && name[2] == 0x64 && name[3] == 0x6c && name[4] == 0x61 && name[5] == 0x63 && name[6] == 0x65 {
        // oldlace
        Some(Color { red: 253, green: 245, blue: 230, alpha: 255 })
    } else if name.len() == 5 && name[0] == 0x6f && name[1] == 0x6c && name[2] == 0x69 && name[3] == 0x76 && name[4] == 0x65 {
        // olive
        Some(Color { red: 128, green: 128, blue: 0, alpha: 255 })
    } else if name.len() == 9 && name[0] == 0x6f && name[1] == 0x6c && name[2] == 0x69 && name[3] == 0x76 && name[4] == 0x65 && name[5] == 0x64 && name[6] == 0x72 && name[7] == 0x61 && name[8] == 0x62 {
        // olivedrab
        Some(Color { red: 107, green: 142, blue: 35, alpha: 255 })
    } else if name.len() == 6 && name[0] == 0x6f && name[1] == 0x72 && name[2] == 0x61 && name[3] == 0x6e && name[4] == 0x67 && name[5] == 0x65 {
        // orange
        Some(Color { red: 255, green: 165, blue: 0, alpha: 255 })
    } else if name.len() == 9 && name[0] == 0x6f && name[1] == 0x72 && name[2] == 0x61 && name[3] == 0x6e && name[4] == 0x67 && name[5] == 0x65 && name[6] == 0x72 && name[7] == 0x65 && name[8] == 0x64 {
        // orangered
        Some(Color { red: 255, green: 69, blue: 0, alpha: 255 })
    } else if name.len() == 6 && name[0] == 0x6f && name[1] == 0x72 && name[2] == 0x63 && name[3] == 0x68 && name[4] == 0x69 && name[5] == 0x64 {
        // orchid
        Some(Color { red: 218, green: 112, blue: 214, alpha: 255 })
    } else {
        None
    }
}

fn find_named_color_o(name: &[u8]) -> (r: Option<Color>)
    ensures
        r == named_color_o(name@),
{
    let n = name.len();
    if n == 7 && name[0] == 0x6f && name[1] == 0x6c && name[2] == 0x64 && name[3] == 0x6c && name[4] == 0x61 && name[5] == 0x63 && name[6] == 0x65 {
        // oldlace
        return Some(Color { red: 253, green: 245, blue: 230, alpha: 255 });
    }
    if n == 5 && name[0] == 0x6f && name[1] == 0x6c && name[2] == 0x69 && name[3] == 0x76 && name[4] == 0x65 {
        // olive
        return Some(Color { red: 128, green: 128, blue: 0, alpha: 255 });
    }
    if n == 9 && name[0] == 0x6f && name[1] == 0x6c && name[2] == 0x69 && name[3] == 0x76 && name[4] == 0x65 && name[5] == 0x64 && name[6] == 0x72 && name[7] == 0x61 && name[8] == 0x62 {
        // olivedrab
        return Some(Color { red: 107, green: 142, blue: 35, alpha: 255 });
    }
    if n == 6 && name[0] == 0x6f && name[1] == 0x72 && name[2] == 0x61 && name[3] == 0x6e && name[4] == 0x67 && name[5] == 0x65 {
        // orange
        return Some(Color { red: 255, green: 165, blue: 0, alpha: 255 });
    }
    if n == 9 && name[0] == 0x6f && name[1] == 0x72 && name[2] == 0x61 && name[3] == 0x6e && name[4] == 0x67 && name[5] == 0x65 && name[6] == 0x72 && name[7] == 0x65 && name[8] == 0x64 {
        // orangered
        return Some(Color { red: 255, green: 69, blue: 0, alpha: 255 });
    }
    if n == 6 && name[0] == 0x6f && name[1] == 0x72 && name[2] == 0x63 && name[3] == 0x68 && name[4] == 0x69 && name[5] == 0x64 {
        // orchid
        return Some(Color { red: 218, green: 112, blue: 214, alpha: 255 });
    }
    None
}

/// The named colors that start with `p`.
pub open spec fn named_color_p(name: Seq<u8>) -> Option<Color> {
    if name.len() == 13 && name[0] == 0x70 && name[1] == 0x61 && name[2] == 0x6c && name[3] == 0x65 && name[4] == 0x67 && name[5] == 0x6f && name[6] == 0x6c && name[7] == 0x64 && name[8] == 0x65 && name[9] == 0x6e && name[10] == 0x72 && name[11] == 0x6f && name[12] == 0x64 {
        // palegoldenrod
        Some(Color { red: 238, green: 232, blue: 170, alpha: 255 })
    } else if name.len() == 9 && name[0] == 0x70 && name[1] == 0x61 && name[2] == 0x6c && name[3] == 0x65 && name[4] == 0x67 && name[5] == 0x72 && name[6] == 0x65 && name[7] == 0x65 && name[8] == 0x6e {
        // palegreen
        Some(Color { red: 152, green: 251, blue: 152, alpha: 255 })
    } else if name.len() == 13 && name[0] == 0x70 && name[1] == 0x61 && name[2] == 0x6c && name[3] == 0x65 && name[4] == 0x74 && name[5] == 0x75 && name[6] == 0x72 && name[7] == 0x71 && name[8] == 0x75 && name[9] == 0x6f && name[10] == 0x69 && name[11] == 0x73 && name[12] == 0x65 {
        // paleturquoise
        Some(Color { red: 175, green: 238, blue: 238, alpha: 255 })
    } else if name.len() == 13 && name[0] == 0x70 && name[1] == 0x61 && name[2] == 0x6c && name[3] == 0x65 && name[4] == 0x76 && name[5] == 0x69 && name[6] == 0x6f && name[7] == 0x6c && name[8] == 0x65 && name[9] == 0x74 && name[10] == 0x72 && name[11] == 0x65 && name[12] == 0x64 {
        // palevioletred
        Some(Color { red: 219, green: 112, blue: 147, alpha: 255 })
    } else if name.len() == 10 && name[0] == 0x70 && name[1] == 0x61 && name[2] == 0x70 && name[3] == 0x61 && name[4] == 0x79 && name[5] == 0x61 && name[6] == 0x77 && name[7] == 0x68 && name[8] == 0x69 && name[9] == 0x70 {
        // papayawhip
        Some(Color { red: 255, green: 239, blue: 213, alpha: 255 })
    } else if name.len() == 9 && name[0] == 0x70 && name[1] == 0x65 && name[2] == 0x61 && name[3] == 0x63 && name[4] == 0x68 && name[5] == 0x70 && name[6] == 0x75 && name[7] == 0x66 && name[8] == 0x66 {
        // peachpuff
        Some(Color { red: 255, green: 218, blue: 185, alpha: 255 })
    } else if name.len() == 4 && name[0] == 0x70 && name[1] == 0x65 && name[2] == 0x72 && name[3] == 0x75 {
        // peru
        Some(Color { red: 205, green: 133, blue: 63, alpha: 255 })
    } else if name.len() == 4 && name[0] == 0x70 && name[1] == 0x69 && name[2] == 0x6e && name[3] == 0x6b {
        // pink
        Some(Color { red: 255, green: 192, blue: 203, alpha: 255 })
    } else if name.len() == 4 && name[0] == 0x70 && name[1] == 0x6c && name[2] == 0x75 && name[3] == 0x6d {
        // plum
        Some(Color { red: 221, green: 160, blue: 221, alpha: 255 })
    } else if name.len() == 10 && name[0] == 0x70 && name[1] == 0x6f && name[2] == 0x77 && name[3] == 0x64 && name[4] == 0x65 && name[5] == 0x72 && name[6] == 0x62 && name[7] == 0x6c && name[8] == 0x75 && name[9] == 0x65 {
        // powderblue
        Some(Color { red: 176, green: 224, blue: 230, alpha: 255 })
    } else if name.len() == 6 && name[0] == 0x70 && name[1] == 0x75 && name[2] == 0x72 && name[3] == 0x70 && name[4] == 0x6c && name[5] == 0x65 {
        // purple
        Some(Color { red: 128, green: 0, blue: 128, alpha: 255 })
    } else {
        None
    }
}

fn find_named_color_p(name: &[u8]) -> (r: Option<Color>)
    ensures
        r == named_color_p(name@),
{
    let n = name.len();
    if n == 13 && name[0] == 0x70 && name[1] == 0x61 && name[2] == 0x6c && name[3] == 0x65 && name[4] == 0x67 && name[5] == 0x6f && name[6] == 0x6c && name[7] == 0x64 && name[8] == 0x65 && name[9] == 0x6e && name[10] == 0x72 && name[11] == 0x6f && name[12] == 0x64 {
        // palegoldenrod
        return Some(Color { red: 238, green: 232, blue: 170, alpha: 255 });
    }
    if n == 9 && name[0] == 0x70 && name[1] == 0x61 && name[2] == 0x6c && name[3] == 0x65 && name[4] == 0x67 && name[5] == 0x72 && name[6] == 0x65 && name[7] == 0x65 && name[8] == 0x6e {
        // palegreen
        return Some(Color { red: 152, green: 251, blue: 152, alpha: 255 });
    }
    if n == 13 && name[0] == 0x70 && name[1] == 0x61 && name[2] == 0x6c && name[3] == 0x65 && name[4] == 0x74 && name[5] == 0x75 && name[6] == 0x72 && name[7] == 0x71 && name[8] == 0x75 && name[9] == 0x6f && name[10] == 0x69 && name[11] == 0x73 && name[12] == 0x65 {
        // paleturquoise
        return Some(Color { red: 175, green: 238, blue: 238, alpha: 255 });
    }
    if n == 13 && name[0] == 0x70 && name[1] == 0x61 && name[2] == 0x6c && name[3] == 0x65 && name[4] == 0x76 && name[5] == 0x69 && name[6] == 0x6f && name[7] == 0x6c && name[8] == 0x65 && name[9] == 0x74 && name[10] == 0x72 && name[11] == 0x65 && name[12] == 0x64 {
        // palevioletred
        return Some(Color { red: 219, green: 112, blue: 147, alpha: 255 });
    }
    if n == 10 && name[0] == 0x70 && name[1] == 0x61 && name[2] == 0x70 && name[3] == 0x61 && name[4] == 0x79 && name[5] == 0x61 && name[6] == 0x77 && name[7] == 0x68 && name[8] == 0x69 && name[9] == 0x70 {
        // papayawhip
        return Some(Color { red: 255, green: 239, blue: 213, alpha: 255 });
    }
    if n == 9 && name[0] == 0x70 && name[1] == 0x65 && name[2] == 0x61 && name[3] == 0x63 && name[4] == 0x68 && name[5] == 0x70 && name[6] == 0x75 && name[7] == 0x66 && name[8] == 0x66 {
        // peachpuff
        return Some(Color { red: 255, green: 218, blue: 185, alpha: 255 });
    }
    if n == 4 && name[0] == 0x70 && name[1] == 0x65 && name[2] == 0x72 && name[3] == 0x75 {
        // peru
        return Some(Color { red: 205, green: 133, blue: 63, alpha: 255 });
    }
    if n == 4 && name[0] == 0x70 && name[1] == 0x69 && name[2] == 0x6e && name[3] == 0x6b {
        // pink
        return Some(Color { red: 255, green: 192, blue: 203, alpha: 255 });
    }
    if n == 4 && name[0] == 0x70 && name[1] == 0x6c && name[2] == 0x75 && name[3] == 0x6d {
        // plum
        return Some(Color { red: 221, green: 160, blue: 221, alpha: 255 });
    }
    if n == 10 && name[0] == 0x70 && name[1] == 0x6f && name[2] == 0x77 && name[3] == 0x64 && name[4] == 0x65 && name[5] == 0x72 && name[6] == 0x62 && name[7] == 0x6c && name[8] == 0x75 && name[9] == 0x65 {
        // powderblue
        return Some(Color { red: 176, green: 224, blue: 230, alpha: 255 });
    }
    if n == 6 && name[0] == 0x70 && name[1] == 0x75 && name[2] == 0x72 && name[3] == 0x70 && name[4] == 0x6c && name[5] == 0x65 {
        // purple
        return Some(Color { red: 128, green: 0, blue: 128, alpha: 255 });
    }
    None
}

/// The named colors that start with `r`.
pub open spec fn named_color_r(name: Seq<u8>) -> Option<Color> {
    if name.len() == 13 && name[0] == 0x72 && name[1] == 0x65 && name[2] == 0x62 && name[3] == 0x65 && name[4] == 0x63 && name[5] == 0x63 && name[6] == 0x61 && name[7] == 0x70 && name[8] == 0x75 && name[9] == 0x72 && name[10] == 0x70 && name[11] == 0x6c && name[12] == 0x65 {
        // rebeccapurple
        Some(Color { red: 102, green: 51, blue: 153, alpha: 255 })
    } else if name.len() == 3 && name[0] == 0x72 && name[1] == 0x65 && name[2] == 0x64 {
        // red
        Some(Color { red: 255, green: 0, blue: 0, alpha: 255 })
    } else if name.len() == 9 && name[0] == 0x72 && name[1] == 0x6f && name[2] == 0x73 && name[3] == 0x79 && name[4] == 0x62 && name[5] == 0x72 && name[6] == 0x6f && name[7] == 0x77 && name[8] == 0x6e {
        // rosybrown
        Some(Color { red: 188, green: 143, blue: 143, alpha: 255 })
    } else if name.len() == 9 && name[0] == 0x72 && name[1] == 0x6f && name[2] == 0x79 && name[3] == 0x61 && name[4] == 0x6c && name[5] == 0x62 && name[6] == 0x6c && name[7] == 0x75 && name[8] == 0x65 {
        // royalblue
        Some(Color { red: 65, green: 105, blue: 225, alpha: 255 })
    } else {
        None
    }
}

fn find_named_color_r(name: &[u8]) -> (r: Option<Color>)
    ensures
        r == named_color_r(name@),
{
    let n = name.len();
    if n == 13 && name[0] == 0x72 && name[1] == 0x65 && name[2] == 0x62 && name[3] == 0x65 && name[4] == 0x63 && name[5] == 0x63 && name[6] == 0x61 && name[7] == 0x70 && name[8] == 0x75 && name[9] == 0x72 && name[10] == 0x70 && name[11] == 0x6c && name[12] == 0x65 {
        // rebeccapurple
        return Some(Color { red: 102, green: 51, blue: 153, alpha: 255 });
    }
    if n == 3 && name[0] == 0x72 && name[1] == 0x65 && name[2] == 0x64 {
        // red
        return Some(Color { red: 255, green: 0, blue: 0, alpha: 255 });
    }
    if n == 9 && name[0] == 0x72 && name[1] == 0x6f && name[2] == 0x73 && name[3] == 0x79 && name[4] == 0x62 && name[5] == 0x72 && name[6] == 0x6f && name[7] == 0x77 && name[8] == 0x6e {
        // rosybrown
        return Some(Color { red: 188, green: 143, blue: 143, alpha: 255 });
    }
    if n == 9 && name[0] == 0x72 && name[1] == 0x6f && name[2] == 0x79 && name[3] == 0x61 && name[4] == 0x6c && name[5] == 0x62 && name[6] == 0x6c && name[7] == 0x75 && name[8] == 0x65 {
        // royalblue
        return Some(Color { red: 65, green: 105, blue: 225, alpha: 255 });
    }
    None
}

/// The named colors that start with `s`.
pub open spec fn named_color_s(name: Seq<u8>) -> Option<Color> {
    if name.len() == 11 && name[0] == 0x73 && name[1] == 0x61 && name[2] == 0x64 && name[3] == 0x64 && name[4] == 0x6c && name[5] == 0x65 && name[6] == 0x62 && name[7] == 0x72 && name[8] == 0x6f && name[9] == 0x77 && name[10] == 0x6e {
        // saddlebrown
        Some(Color { red: 139, green: 69, blue: 19, alpha: 255 })
    } else if name.len() == 6 && name[0] == 0x73 && name[1] == 0x61 && name[2] == 0x6c && name[3] == 0x6d && name[4] == 0x6f && name[5] == 0x6e {
        // salmon
        Some(Color { red: 250, green: 128, blue: 114, alpha: 255 })
    } else if name.len() == 10 && name[0] == 0x73 && name[1] == 0x61 && name[2] == 0x6e && name[3] == 0x64 && name[4] == 0x79 && name[5] == 0x62 && name[6] == 0x72 && name[7] == 0x6f && name[8] == 0x77 && name[9] == 0x6e {
        // sandybrown
        Some(Color { red: 244, green: 164, blue: 96, alpha: 255 })
    } else if name.len() == 8 && name[0] == 0x73 && name[1] == 0x65 && name[2] == 0x61 && name[3] == 0x67 && name[4] == 0x72 && name[5] == 0x65 && name[6] == 0x65 && name[7] == 0x6e {
        // seagreen
        Some(Color { red: 46, green: 139, blue: 87, alpha: 255 })
    } else if name.len() == 8 && name[0] == 0x73 && name[1] == 0x65 && name[2] == 0x61 && name[3] == 0x73 && name[4] == 0x68 && name[5] == 0x65 && name[6] == 0x6c && name[7] == 0x6c {
        // seashell
        Some(Color { red: 255, green: 245, blue: 238, alpha: 255 })
    } else if name.len() == 6 && name[0] == 0x73 && name[1] == 0x69 && name[2] == 0x65 && name[3] == 0x6e && name[4] == 0x6e && name[5] == 0x61 {
        // sienna
        Some(Color { red: 160, green: 82, blue: 45, alpha: 255 })
    } else if name.len() == 6 && name[0] == 0x73 && name[1] == 0x69 && name[2] == 0x6c && name[3] == 0x76 && name[4] == 0x65 && name[5] == 0x72 {
        // silver
        Some(Color { red: 192, green: 192, blue: 192, alpha: 255 })
    } else if name.len() == 7 && name[0] == 0x73 && name[1] == 0x6b && name[2] == 0x79 && name[3] == 0x62 && name[4] == 0x6c && name[5] == 0x75 && name[6] == 0x65 {
        // skyblue
        Some(Color { red: 135, green: 206, blue: 235, alpha: 255 })
    } else if name.len() == 9 && name[0] == 0x73 && name[1] == 0x6c && name[2] == 0x61 && name[3] == 0x74 && name[4] == 0x65 && name[5] == 0x62 && name[6] == 0x6c && name[7] == 0x75 && name[8] == 0x65 {
        // slateblue
        Some(Color { red: 106, green: 90, blue: 205, alpha: 255 })
    } else if name.len() == 9 && name[0] == 0x73 && name[1] == 0x6c && name[2] == 0x61 && name[3] == 0x74 && name[4] == 0x65 && name[5] == 0x67 && name[6] == 0x72 && name[7] == 0x61 && name[8] == 0x79 {
        // slategray
        Some(Color { red: 112, green: 128, blue: 144, alpha: 255 })
    } else if name.len() == 9 && name[0] == 0x73 && name[1] == 0x6c && name[2] == 0x61 && name[3] == 0x74 && name[4] == 0x65 && name[5] == 0x67 && name[6] == 0x72 && name[7] == 0x65 && name[8] == 0x79 {
        // slategrey
        Some(Color { red: 112, green: 128, blue: 144, alpha: 255 })
    } else if name.len() == 4 && name[0] == 0x73 && name[1] == 0x6e && name[2] == 0x6f && name[3] == 0x77 {
        // snow
        Some(Color { red: 255, green: 250, blue: 250, alpha: 255 })
    } else if name.len() == 11 && name[0] == 0x73 && name[1] == 0x70 && name[2] == 0x72 && name[3] == 0x69 && name[4] == 0x6e && name[5] == 0x67 && name[6] == 0x67 && name[7] == 0x72 && name[8] == 0x65 && name[9] == 0x65 && name[10] == 0x6e {
        // springgreen
        Some(Color { red: 0, green: 255, blue: 127, alpha: 255 })
    } else if name.len() == 9 && name[0] == 0x73 && name[1] == 0x74 && name[2] == 0x65 && name[3] == 0x65 && name[4] == 0x6c && name[5] == 0x62 && name[6] == 0x6c && name[7] == 0x75 && name[8] == 0x65 {
        // steelblue
        Some(Color { red: 70, green: 130, blue: 180, alpha: 255 })
    } else {
        None
    }
}

fn find_named_color_s(name: &[u8]) -> (r: Option<Color>)
    ensures
        r == named_color_s(name@),
{
    let n = name.len();
    if n == 11 && name[0] == 0x73 && name[1] == 0x61 && name[2] == 0x64 && name[3] == 0x64 && name[4] == 0x6c && name[5] == 0x65 && name[6] == 0x62 && name[7] == 0x72 && name[8] == 0x6f && name[9] == 0x77 && name[10] == 0x6e {
        // saddlebrown
        return Some(Color { red: 139, green: 69, blue: 19, alpha: 255 });
    }
    if n == 6 && name[0] == 0x73 && name[1] == 0x61 && name[2] == 0x6c && name[3] == 0x6d && name[4] == 0x6f && name[5] == 0x6e {
        // salmon
        return Some(Color { red: 250, green: 128, blue: 114, alpha: 255 });
    }
    if n == 10 && name[0] == 0x73 && name[1] == 0x61 && name[2] == 0x6e && name[3] == 0x64 && name[4] == 0x79 && name[5] == 0x62 && name[6] == 0x72 && name[7] == 0x6f && name[8] == 0x77 && name[9] == 0x6e {
        // sandybrown
        return Some(Color { red: 244, green: 164, blue: 96, alpha: 255 });
    }
    if n == 8 && name[0] == 0x73 && name[1] == 0x65 && name[2] == 0x61 && name[3] == 0x67 && name[4] == 0x72 && name[5] == 0x65 && name[6] == 0x65 && name[7] == 0x6e {
        // seagreen
        return Some(Color { red: 46, green: 139, blue: 87, alpha: 255 });
    }
    if n == 8 && name[0] == 0x73 && name[1] == 0x65 && name[2] == 0x61 && name[3] == 0x73 && name[4] == 0x68 && name[5] == 0x65 && name[6] == 0x6c && name[7] == 0x6c {
        // seashell
        return Some(Color { red: 255, green: 245, blue: 238, alpha: 255 });
    }
    if n == 6 && name[0] == 0x73 && name[1] == 0x69 && name[2] == 0x65 && name[3] == 0x6e && name[4] == 0x6e && name[5] == 0x61 {
        // sienna
        return Some(Color { red: 160, green: 82, blue: 45, alpha: 255 });
    }
    if n == 6 && name[0] == 0x73 && name[1] == 0x69 && name[2] == 0x6c && name[3] == 0x76 && name[4] == 0x65 && name[5] == 0x72 {
        // silver
        return Some(Color { red: 192, green: 192, blue: 192, alpha: 255 });
    }
    if n == 7 && name[0] == 0x73 && name[1] == 0x6b && name[2] == 0x79 && name[3] == 0x62 && name[4] == 0x6c && name[5] == 0x75 && name[6] == 0x65 {
        // skyblue
        return Some(Color { red: 135, green: 206, blue: 235, alpha: 255 });
    }
    if n == 9 && name[0] == 0x73 && name[1] == 0x6c && name[2] == 0x61 && name[3] == 0x74 && name[4] == 0x65 && name[5] == 0x62 && name[6] == 0x6c && name[7] == 0x75 && name[8] == 0x65 {
        // slateblue
        return Some(Color { red: 106, green: 90, blue: 205, alpha: 255 });
    }
    if n == 9 && name[0] == 0x73 && name[1] == 0x6c && name[2] == 0x61 && name[3] == 0x74 && name[4] == 0x65 && name[5] == 0x67 && name[6] == 0x72 && name[7] == 0x61 && name[8] == 0x79 {
        // slategray
        return Some(Color { red: 112, green: 128, blue: 144, alpha: 255 });
    }
    if n == 9 && name[0] == 0x73 && name[1] == 0x6c && name[2] == 0x61 && name[3] == 0x74 && name[4] == 0x65 && name[5] == 0x67 && name[6] == 0x72 && name[7] == 0x65 && name[8] == 0x79 {
        // slategrey
        return Some(Color { red: 112, green: 128, blue: 144, alpha: 255 });
    }
    if n == 4 && name[0] == 0x73 && name[1] == 0x6e && name[2] == 0x6f && name[3] == 0x77 {
        // snow
        return Some(Color { red: 255, green: 250, blue: 250, alpha: 255 });
    }
    if n == 11 && name[0] == 0x73 && name[1] == 0x70 && name[2] == 0x72 && name[3] == 0x69 && name[4] == 0x6e && name[5] == 0x67 && name[6] == 0x67 && name[7] == 0x72 && name[8] == 0x65 && name[9] == 0x65 && name[10] == 0x6e {
        // springgreen
        return Some(Color { red: 0, green: 255, blue: 127, alpha: 255 });
    }
    if n == 9 && name[0] == 0x73 && name[1] == 0x74 && name[2] == 0x65 && name[3] == 0x65 && name[4] == 0x6c && name[5] == 0x62 && name[6] == 0x6c && name[7] == 0x75 && name[8] == 0x65 {
        // steelblue
        return Some(Color { red: 70, green: 130, blue: 180, alpha: 255 });
    }
    None
}

/// The named colors that start with `t`.
pub open spec fn named_color_t(name: Seq<u8>) -> Option<Color> {
    if name.len() == 3 && name[0] == 0x74 && name[1] == 0x61 && name[2] == 0x6e {
        // tan
        Some(Color { red: 210, green: 180, blue: 140, alpha: 255 })
    } else if name.len() == 4 && name[0] == 0x74 && name[1] == 0x65 && name[2] == 0x61 && name[3] == 0x6c {
        // teal
        Some(Color { red: 0, green: 128, blue: 128, alpha: 255 })
    } else if name.len() == 7 && name[0] == 0x74 && name[1] == 0x68 && name[2] == 0x69 && name[3] == 0x73 && name[4] == 0x74 && name[5] == 0x6c && name[6] == 0x65 {
        // thistle
        Some(Color { red: 216, green: 191, blue: 216, alpha: 255 })
    } else if name.len() == 6 && name[0] == 0x74 && name[1] == 0x6f && name[2] == 0x6d && name[3] == 0x61 && name[4] == 0x74 && name[5] == 0x6f {
        // tomato
        Some(Color { red: 255, green: 99, blue: 71, alpha: 255 })
    } else if name.len() == 11 && name[0] == 0x74 && name[1] == 0x72 && name[2] == 0x61 && name[3] == 0x6e && name[4] == 0x73 && name[5] == 0x70 && name[6] == 0x61 && name[7] == 0x72 && name[8] == 0x65 && name[9] == 0x6e && name[10] == 0x74 {
        // transparent
        Some(Color { red: 0, green: 0, blue: 0, alpha: 0 })
    } else if name.len() == 9 && name[0] == 0x74 && name[1] == 0x75 && name[2] == 0x72 && name[3] == 0x71 && name[4] == 0x75 && name[5] == 0x6f && name[6] == 0x69 && name[7] == 0x73 && name[8] == 0x65 {
        // turquoise
        Some(Color { red: 64, green: 224, blue: 208, alpha: 255 })
    } else {
        None
    }
}

fn find_named_color_t(name: &[u8]) -> (r: Option<Color>)
    ensures
        r == named_color_t(name@),
{
    let n = name.len();
    if n == 3 && name[0] == 0x74 && name[1] == 0x61 && name[2] == 0x6e {
        // tan
        return Some(Color { red: 210, green: 180, blue: 140, alpha: 255 });
    }
    if n == 4 && name[0] == 0x74 && name[1] == 0x65 && name[2] == 0x61 && name[3] == 0x6c {
        // teal
        return Some(Color { red: 0, green: 128, blue: 128, alpha: 255 });
    }
    if n == 7 && name[0] == 0x74 && name[1] == 0x68 && name[2] == 0x69 && name[3] == 0x73 && name[4] == 0x74 && name[5] == 0x6c && name[6] == 0x65 {
        // thistle
        return Some(Color { red: 216, green: 191, blue: 216, alpha: 255 });
    }
    if n == 6 && name[0] == 0x74 && name[1] == 0x6f && name[2] == 0x6d && name[3] == 0x61 && name[4] == 0x74 && name[5] == 0x6f {
        // tomato
        return Some(Color { red: 255, green: 99, blue: 71, alpha: 255 });
    }
    if n == 11 && name[0] == 0x74 && name[1] == 0x72 && name[2] == 0x61 && name[3] == 0x6e && name[4] == 0x73 && name[5] == 0x70 && name[6] == 0x61 && name[7] == 0x72 && name[8] == 0x65 && name[9] == 0x6e && name[10] == 0x74 {
        // transparent
        return Some(Color { red: 0, green: 0, blue: 0, alpha: 0 });
    }
    if n == 9 && name[0] == 0x74 && name[1] == 0x75 && name[2] == 0x72 && name[3] == 0x71 && name[4] == 0x75 && name[5] == 0x6f && name[6] == 0x69 && name[7] == 0x73 && name[8] == 0x65 {
        // turquoise
        return Some(Color { red: 64, green: 224, blue: 208, alpha: 255 });
    }
    None
}

/// The named colors that start with `v`.
pub open spec fn named_color_v(name: Seq<u8>) -> Option<Color> {
    if name.len() == 6 && name[0] == 0x76 && name[1] == 0x69 && name[2] == 0x6f && name[3] == 0x6c && name[4] == 0x65 && name[5] == 0x74 {
        // violet
        Some(Color { red: 238, green: 130, blue: 238, alpha: 255 })
    } else {
        None
    }
}

fn find_named_color_v(name: &[u8]) -> (r: Option<Color>)
    ensures
        r == named_color_v(name@),
{
    let n = name.len();
    if n == 6 && name[0] == 0x76 && name[1] == 0x69 && name[2] == 0x6f && name[3] == 0x6c && name[4] == 0x65 && name[5] == 0x74 {
        // violet
        return Some(Color { red: 238, green: 130, blue: 238, alpha: 255 });
    }
    None
}

/// The named colors that start with `w`.
pub open spec fn named_color_w(name: Seq<u8>) -> Option<Color> {
    if name.len() == 5 && name[0] == 0x77 && name[1] == 0x68 && name[2] == 0x65 && name[3] == 0x61 && name[4] == 0x74 {
        // wheat
        Some(Color { red: 245, green: 222, blue: 179, alpha: 255 })
    } else if name.len() == 5 && name[0] == 0x77 && name[1] == 0x68 && name[2] == 0x69 && name[3] == 0x74 && name[4] == 0x65 {
        // white
        Some(Color { red: 255, green: 255, blue: 255, alpha: 255 })
    } else if name.len() == 10 && name[0] == 0x77 && name[1] == 0x68 && name[2] == 0x69 && name[3] == 0x74 && name[4] == 0x65 && name[5] == 0x73 && name[6] == 0x6d && name[7] == 0x6f && name[8] == 0x6b && name[9] == 0x65 {
        // whitesmoke
        Some(Color { red: 245, green: 245, blue: 245, alpha: 255 })
    } else {
        None
    }
}

fn find_named_color_w(name: &[u8]) -> (r: Option<Color>)
    ensures
        r == named_color_w(name@),
{
    let n = name.len();
    if n == 5 && name[0] == 0x77 && name[1] == 0x68 && name[2] == 0x65 && name[3] == 0x61 && name[4] == 0x74 {
        // wheat
        return Some(Color { red: 245, green: 222, blue: 179, alpha: 255 });
    }
    if n == 5 && name[0] == 0x77 && name[1] == 0x68 && name[2] == 0x69 && name[3] == 0x74 && name[4] == 0x65 {
        // white
        return Some(Color { red: 255, green: 255, blue: 255, alpha: 255 });
    }
    if n == 10 && name[0] == 0x77 && name[1] == 0x68 && name[2] == 0x69 && name[3] == 0x74 && name[4] == 0x65 && name[5] == 0x73 && name[6] == 0x6d && name[7] == 0x6f && name[8] == 0x6b && name[9] == 0x65 {
        // whitesmoke
        return Some(Color { red: 245, green: 245, blue: 245, alpha: 255 });
    }
    None
}

/// The named colors that start with `y`.
pub open spec fn named_color_y(name: Seq<u8>) -> Option<Color> {
    if name.len() == 6 && name[0] == 0x79 && name[1] == 0x65 && name[2] == 0x6c && name[3] == 0x6c && name[4] == 0x6f && name[5] == 0x77 {
        // yellow
        Some(Color { red: 255, green: 255, blue: 0, alpha: 255 })
    } else if name.len() == 11 && name[0] == 0x79 && name[1] == 0x65 && name[2] == 0x6c && name[3] == 0x6c && name[4] == 0x6f && name[5] == 0x77 && name[6] == 0x67 && name[7] == 0x72 && name[8] == 0x65 && name[9] == 0x65 && name[10] == 0x6e {
        // yellowgreen
        Some(Color { red: 154, green: 205, blue: 50, alpha: 255 })
    } else {
        None
    }
}

fn find_named_color_y(name: &[u8]) -> (r: Option<Color>)
    ensures
        r == named_color_y(name@),
{
    let n = name.len();
    if n == 6 && name[0] == 0x79 && name[1] == 0x65 && name[2] == 0x6c && name[3] == 0x6c && name[4] == 0x6f && name[5] == 0x77 {
        // yellow
        return Some(Color { red: 255, green: 255, blue: 0, alpha: 255 });
    }
    if n == 11 && name[0] == 0x79 && name[1] == 0x65 && name[2] == 0x6c && name[3] == 0x6c && name[4] == 0x6f && name[5] == 0x77 && name[6] == 0x67 && name[7] == 0x72 && name[8] == 0x65 && name[9] == 0x65 && name[10] == 0x6e {
        // yellowgreen
        return Some(Color { red: 154, green: 205, blue: 50, alpha: 255 });
    }
    None
}

/// The color that a lowercase CSS color keyword names.
#[verifier::opaque]
pub open spec fn named_color(name: Seq<u8>) -> Option<Color> {
    if name.len() == 0 {
        None
    } else if name[0] == 0x61 {
        named_color_a(name)
    } else if name[0] == 0x62 {
        named_color_b(name)
    } else if name[0] == 0x63 {
        named_color_c(name)
    } else if name[0] == 0x64 {
        named_color_d(name)
    } else if name[0] == 0x66 {
        named_color_f(name)
    } else if name[0] == 0x67 {
        named_color_g(name)
    } else if name[0] == 0x68 {
        named_color_h(name)
    } else if name[0] == 0x69 {
        named_color_i(name)
    } else if name[0] == 0x6b {
        named_color_k(name)
    } else if name[0] == 0x6c {
        named_color_l(name)
    } else if name[0] == 0x6d {
        named_color_m(name)
    } else if name[0] == 0x6e {
        named_color_n(name)
    } else if name[0] == 0x6f {
        named_color_o(name)
    } else if name[0] == 0x70 {
        named_color_p(name)
    } else if name[0] == 0x72 {
        named_color_r(name)
    } else if name[0] == 0x73 {
        named_color_s(name)
    } else if name[0] == 0x74 {
        named_color_t(name)
    } else if name[0] == 0x76 {
        named_color_v(name)
    } else if name[0] == 0x77 {
        named_color_w(name)
    } else if name[0] == 0x79 {
        named_color_y(name)
    } else {
        None
    }
}

/// The color that a lowercase CSS color keyword names.
pub fn find_named_color(name: &[u8]) -> (r: Option<Color>)
    ensures
        r == named_color(name@),
{
    reveal(named_color);
    if name.len() == 0 {
        return None;
    }
    let c = name[0];
    if c == 0x61 {
        find_named_color_a(name)
    } else if c == 0x62 {
        find_named_color_b(name)
    } else if c == 0x63 {
        find_named_color_c(name)
    } else if c == 0x64 {
        find_named_color_d(name)
    } else if c == 0x66 {
        find_named_color_f(name)
    } else if c == 0x67 {
        find_named_color_g(name)
    } else if c == 0x68 {
        find_named_color_h(name)
    } else if c == 0x69 {
        find_named_color_i(name)
    } else if c == 0x6b {
        find_named_color_k(name)
    } else if c == 0x6c {
        find_named_color_l(name)
    } else if c == 0x6d {
        find_named_color_m(name)
    } else if c == 0x6e {
        find_named_color_n(name)
    } else if c == 0x6f {
        find_named_color_o(name)
    } else if c == 0x70 {
        find_named_color_p(name)
    } else if c == 0x72 {
        find_named_color_r(name)
    } else if c == 0x73 {
        find_named_color_s(name)
    } else if c == 0x74 {
        find_named_color_t(name)
    } else if c == 0x76 {
        find_named_color_v(name)
    } else if c == 0x77 {
        find_named_color_w(name)
    } else if c == 0x79 {
        find_named_color_y(name)
    } else {
        None
    }
}

} // verus!
