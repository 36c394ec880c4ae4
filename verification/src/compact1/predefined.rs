//! The predefined encodings and char sets.

use vstd::prelude::*;

use crate::compact1::{GlyphID, StringID};

verus! {

/// The number of glyphs of the char set of the ISO Adobe characters.
pub const ISO_ADOBE_GLYPHS: u16 = 229;

/// The number of glyphs of the expert char set.
pub const EXPERT_GLYPHS: u16 = 166;

/// The number of glyphs of the expert-subset char set.
pub const EXPERT_SUBSET_GLYPHS: u16 = 87;

/// The string identifier that the standard encoding gives the code; zero, the
/// identifier of `.notdef`, where it gives none.
pub open spec fn standard_encoding(code: u16) -> StringID {
    match code {
        32 => 1,
        33 => 2,
        34 => 3,
        35 => 4,
        36 => 5,
        37 => 6,
        38 => 7,
        39 => 8,
        40 => 9,
        41 => 10,
        42 => 11,
        43 => 12,
        44 => 13,
        45 => 14,
        46 => 15,
        47 => 16,
        48 => 17,
        49 => 18,
        50 => 19,
        51 => 20,
        52 => 21,
        53 => 22,
        54 => 23,
        55 => 24,
        56 => 25,
        57 => 26,
        58 => 27,
        59 => 28,
        60 => 29,
        61 => 30,
        62 => 31,
        63 => 32,
        64 => 33,
        65 => 34,
        66 => 35,
        67 => 36,
        68 => 37,
        69 => 38,
        70 => 39,
        71 => 40,
        72 => 41,
        73 => 42,
        74 => 43,
        75 => 44,
        76 => 45,
        77 => 46,
        78 => 47,
        79 => 48,
        80 => 49,
        81 => 50,
        82 => 51,
        83 => 52,
        84 => 53,
        85 => 54,
        86 => 55,
        87 => 56,
        88 => 57,
        89 => 58,
        90 => 59,
        91 => 60,
        92 => 61,
        93 => 62,
        94 => 63,
        95 => 64,
        96 => 65,
        97 => 66,
        98 => 67,
        99 => 68,
        100 => 69,
        101 => 70,
        102 => 71,
        103 => 72,
        104 => 73,
        105 => 74,
        106 => 75,
        107 => 76,
        108 => 77,
        109 => 78,
        110 => 79,
        111 => 80,
        112 => 81,
        113 => 82,
        114 => 83,
        115 => 84,
        116 => 85,
        117 => 86,
        118 => 87,
        119 => 88,
        120 => 89,
        121 => 90,
        122 => 91,
        123 => 92,
        124 => 93,
        125 => 94,
        126 => 95,
        161 => 96,
        162 => 97,
        163 => 98,
        164 => 99,
        165 => 100,
        166 => 101,
        167 => 102,
        168 => 103,
        169 => 104,
        170 => 105,
        171 => 106,
        172 => 107,
        173 => 108,
        174 => 109,
        175 => 110,
        177 => 111,
        178 => 112,
        179 => 113,
        180 => 114,
        182 => 115,
        183 => 116,
        184 => 117,
        185 => 118,
        186 => 119,
        187 => 120,
        188 => 121,
        189 => 122,
        191 => 123,
        193 => 124,
        194 => 125,
        195 => 126,
        196 => 127,
        197 => 128,
        198 => 129,
        199 => 130,
        200 => 131,
        202 => 132,
        203 => 133,
        205 => 134,
        206 => 135,
        207 => 136,
        208 => 137,
        225 => 138,
        227 => 139,
        232 => 140,
        233 => 141,
        234 => 142,
        235 => 143,
        241 => 144,
        245 => 145,
        248 => 146,
        249 => 147,
        250 => 148,
        251 => 149,
        _ => 0,
    }
}

/// Return the string identifier that the standard encoding gives the code.
pub fn get_standard_encoding(code: u16) -> (sid: StringID)
    ensures
        sid == standard_encoding(code),
{
    match code {
        32 => 1,
        33 => 2,
        34 => 3,
        35 => 4,
        36 => 5,
        37 => 6,
        38 => 7,
        39 => 8,
        40 => 9,
        41 => 10,
        42 => 11,
        43 => 12,
        44 => 13,
        45 => 14,
        46 => 15,
        47 => 16,
        48 => 17,
        49 => 18,
        50 => 19,
        51 => 20,
        52 => 21,
        53 => 22,
        54 => 23,
        55 => 24,
        56 => 25,
        57 => 26,
        58 => 27,
        59 => 28,
        60 => 29,
        61 => 30,
        62 => 31,
        63 => 32,
        64 => 33,
        65 => 34,
        66 => 35,
        67 => 36,
        68 => 37,
        69 => 38,
        70 => 39,
        71 => 40,
        72 => 41,
        73 => 42,
        74 => 43,
        75 => 44,
        76 => 45,
        77 => 46,
        78 => 47,
        79 => 48,
        80 => 49,
        81 => 50,
        82 => 51,
        83 => 52,
        84 => 53,
        85 => 54,
        86 => 55,
        87 => 56,
        88 => 57,
        89 => 58,
        90 => 59,
        91 => 60,
        92 => 61,
        93 => 62,
        94 => 63,
        95 => 64,
        96 => 65,
        97 => 66,
        98 => 67,
        99 => 68,
        100 => 69,
        101 => 70,
        102 => 71,
        103 => 72,
        104 => 73,
        105 => 74,
        106 => 75,
        107 => 76,
        108 => 77,
        109 => 78,
        110 => 79,
        111 => 80,
        112 => 81,
        113 => 82,
        114 => 83,
        115 => 84,
        116 => 85,
        117 => 86,
        118 => 87,
        119 => 88,
        120 => 89,
        121 => 90,
        122 => 91,
        123 => 92,
        124 => 93,
        125 => 94,
        126 => 95,
        161 => 96,
        162 => 97,
        163 => 98,
        164 => 99,
        165 => 100,
        166 => 101,
        167 => 102,
        168 => 103,
        169 => 104,
        170 => 105,
        171 => 106,
        172 => 107,
        173 => 108,
        174 => 109,
        175 => 110,
        177 => 111,
        178 => 112,
        179 => 113,
        180 => 114,
        182 => 115,
        183 => 116,
        184 => 117,
        185 => 118,
        186 => 119,
        187 => 120,
        188 => 121,
        189 => 122,
        191 => 123,
        193 => 124,
        194 => 125,
        195 => 126,
        196 => 127,
        197 => 128,
        198 => 129,
        199 => 130,
        200 => 131,
        202 => 132,
        203 => 133,
        205 => 134,
        206 => 135,
        207 => 136,
        208 => 137,
        225 => 138,
        227 => 139,
        232 => 140,
        233 => 141,
        234 => 142,
        235 => 143,
        241 => 144,
        245 => 145,
        248 => 146,
        249 => 147,
        250 => 148,
        251 => 149,
        _ => 0,
    }
}

/// The string identifier that the expert encoding gives the code; zero, the
/// identifier of `.notdef`, where it gives none.
pub open spec fn expert_encoding(code: u16) -> StringID {
    match code {
        32 => 1,
        33 => 229,
        34 => 230,
        36 => 231,
        37 => 232,
        38 => 233,
        39 => 234,
        40 => 235,
        41 => 236,
        42 => 237,
        43 => 238,
        44 => 13,
        45 => 14,
        46 => 15,
        47 => 99,
        48 => 239,
        49 => 240,
        50 => 241,
        51 => 242,
        52 => 243,
        53 => 244,
        54 => 245,
        55 => 246,
        56 => 247,
        57 => 248,
        58 => 27,
        59 => 28,
        60 => 249,
        61 => 250,
        62 => 251,
        63 => 252,
        65 => 253,
        66 => 254,
        67 => 255,
        68 => 256,
        69 => 257,
        73 => 258,
        76 => 259,
        77 => 260,
        78 => 261,
        79 => 262,
        82 => 263,
        83 => 264,
        84 => 265,
        86 => 266,
        87 => 109,
        88 => 110,
        89 => 267,
        90 => 268,
        91 => 269,
        93 => 270,
        94 => 271,
        95 => 272,
        96 => 273,
        97 => 274,
        98 => 275,
        99 => 276,
        100 => 277,
        101 => 278,
        102 => 279,
        103 => 280,
        104 => 281,
        105 => 282,
        106 => 283,
        107 => 284,
        108 => 285,
        109 => 286,
        110 => 287,
        111 => 288,
        112 => 289,
        113 => 290,
        114 => 291,
        115 => 292,
        116 => 293,
        117 => 294,
        118 => 295,
        119 => 296,
        120 => 297,
        121 => 298,
        122 => 299,
        123 => 300,
        124 => 301,
        125 => 302,
        126 => 303,
        161 => 304,
        162 => 305,
        163 => 306,
        166 => 307,
        167 => 308,
        168 => 309,
        169 => 310,
        170 => 311,
        172 => 312,
        175 => 313,
        178 => 314,
        179 => 315,
        182 => 316,
        183 => 317,
        184 => 318,
        188 => 158,
        189 => 155,
        190 => 163,
        191 => 319,
        192 => 320,
        193 => 321,
        194 => 322,
        195 => 323,
        196 => 324,
        197 => 325,
        200 => 326,
        201 => 150,
        202 => 164,
        203 => 169,
        204 => 327,
        205 => 328,
        206 => 329,
        207 => 330,
        208 => 331,
        209 => 332,
        210 => 333,
        211 => 334,
        212 => 335,
        213 => 336,
        214 => 337,
        215 => 338,
        216 => 339,
        217 => 340,
        218 => 341,
        219 => 342,
        220 => 343,
        221 => 344,
        222 => 345,
        223 => 346,
        224 => 347,
        225 => 348,
        226 => 349,
        227 => 350,
        228 => 351,
        229 => 352,
        230 => 353,
        231 => 354,
        232 => 355,
        233 => 356,
        234 => 357,
        235 => 358,
        236 => 359,
        237 => 360,
        238 => 361,
        239 => 362,
        240 => 363,
        241 => 364,
        242 => 365,
        243 => 366,
        244 => 367,
        245 => 368,
        246 => 369,
        247 => 370,
        248 => 371,
        249 => 372,
        250 => 373,
        251 => 374,
        252 => 375,
        253 => 376,
        254 => 377,
        255 => 378,
        _ => 0,
    }
}

/// Return the string identifier that the expert encoding gives the code.
pub fn get_expert_encoding(code: u16) -> (sid: StringID)
    ensures
        sid == expert_encoding(code),
{
    match code {
        32 => 1,
        33 => 229,
        34 => 230,
        36 => 231,
        37 => 232,
        38 => 233,
        39 => 234,
        40 => 235,
        41 => 236,
        42 => 237,
        43 => 238,
        44 => 13,
        45 => 14,
        46 => 15,
        47 => 99,
        48 => 239,
        49 => 240,
        50 => 241,
        51 => 242,
        52 => 243,
        53 => 244,
        54 => 245,
        55 => 246,
        56 => 247,
        57 => 248,
        58 => 27,
        59 => 28,
        60 => 249,
        61 => 250,
        62 => 251,
        63 => 252,
        65 => 253,
        66 => 254,
        67 => 255,
        68 => 256,
        69 => 257,
        73 => 258,
        76 => 259,
        77 => 260,
        78 => 261,
        79 => 262,
        82 => 263,
        83 => 264,
        84 => 265,
        86 => 266,
        87 => 109,
        88 => 110,
        89 => 267,
        90 => 268,
        91 => 269,
        93 => 270,
        94 => 271,
        95 => 272,
        96 => 273,
        97 => 274,
        98 => 275,
        99 => 276,
        100 => 277,
        101 => 278,
        102 => 279,
        103 => 280,
        104 => 281,
        105 => 282,
        106 => 283,
        107 => 284,
        108 => 285,
        109 => 286,
        110 => 287,
        111 => 288,
        112 => 289,
        113 => 290,
        114 => 291,
        115 => 292,
        116 => 293,
        117 => 294,
        118 => 295,
        119 => 296,
        120 => 297,
        121 => 298,
        122 => 299,
        123 => 300,
        124 => 301,
        125 => 302,
        126 => 303,
        161 => 304,
        162 => 305,
        163 => 306,
        166 => 307,
        167 => 308,
        168 => 309,
        169 => 310,
        170 => 311,
        172 => 312,
        175 => 313,
        178 => 314,
        179 => 315,
        182 => 316,
        183 => 317,
        184 => 318,
        188 => 158,
        189 => 155,
        190 => 163,
        191 => 319,
        192 => 320,
        193 => 321,
        194 => 322,
        195 => 323,
        196 => 324,
        197 => 325,
        200 => 326,
        201 => 150,
        202 => 164,
        203 => 169,
        204 => 327,
        205 => 328,
        206 => 329,
        207 => 330,
        208 => 331,
        209 => 332,
        210 => 333,
        211 => 334,
        212 => 335,
        213 => 336,
        214 => 337,
        215 => 338,
        216 => 339,
        217 => 340,
        218 => 341,
        219 => 342,
        220 => 343,
        221 => 344,
        222 => 345,
        223 => 346,
        224 => 347,
        225 => 348,
        226 => 349,
        227 => 350,
        228 => 351,
        229 => 352,
        230 => 353,
        231 => 354,
        232 => 355,
        233 => 356,
        234 => 357,
        235 => 358,
        236 => 359,
        237 => 360,
        238 => 361,
        239 => 362,
        240 => 363,
        241 => 364,
        242 => 365,
        243 => 366,
        244 => 367,
        245 => 368,
        246 => 369,
        247 => 370,
        248 => 371,
        249 => 372,
        250 => 373,
        251 => 374,
        252 => 375,
        253 => 376,
        254 => 377,
        255 => 378,
        _ => 0,
    }
}

/// The string identifier of the glyph in the expert char set; zero beyond its
/// glyphs.
pub open spec fn expert_char_set(glyph: GlyphID) -> StringID {
    match glyph {
        1 => 1,
        2 => 229,
        3 => 230,
        4 => 231,
        5 => 232,
        6 => 233,
        7 => 234,
        8 => 235,
        9 => 236,
        10 => 237,
        11 => 238,
        12 => 13,
        13 => 14,
        14 => 15,
        15 => 99,
        16 => 239,
        17 => 240,
        18 => 241,
        19 => 242,
        20 => 243,
        21 => 244,
        22 => 245,
        23 => 246,
        24 => 247,
        25 => 248,
        26 => 27,
        27 => 28,
        28 => 249,
        29 => 250,
        30 => 251,
        31 => 252,
        32 => 253,
        33 => 254,
        34 => 255,
        35 => 256,
        36 => 257,
        37 => 258,
        38 => 259,
        39 => 260,
        40 => 261,
        41 => 262,
        42 => 263,
        43 => 264,
        44 => 265,
        45 => 266,
        46 => 109,
        47 => 110,
        48 => 267,
        49 => 268,
        50 => 269,
        51 => 270,
        52 => 271,
        53 => 272,
        54 => 273,
        55 => 274,
        56 => 275,
        57 => 276,
        58 => 277,
        59 => 278,
        60 => 279,
        61 => 280,
        62 => 281,
        63 => 282,
        64 => 283,
        65 => 284,
        66 => 285,
        67 => 286,
        68 => 287,
        69 => 288,
        70 => 289,
        71 => 290,
        72 => 291,
        73 => 292,
        74 => 293,
        75 => 294,
        76 => 295,
        77 => 296,
        78 => 297,
        79 => 298,
        80 => 299,
        81 => 300,
        82 => 301,
        83 => 302,
        84 => 303,
        85 => 304,
        86 => 305,
        87 => 306,
        88 => 307,
        89 => 308,
        90 => 309,
        91 => 310,
        92 => 311,
        93 => 312,
        94 => 313,
        95 => 314,
        96 => 315,
        97 => 316,
        98 => 317,
        99 => 318,
        100 => 158,
        101 => 155,
        102 => 163,
        103 => 319,
        104 => 320,
        105 => 321,
        106 => 322,
        107 => 323,
        108 => 324,
        109 => 325,
        110 => 326,
        111 => 150,
        112 => 164,
        113 => 169,
        114 => 327,
        115 => 328,
        116 => 329,
        117 => 330,
        118 => 331,
        119 => 332,
        120 => 333,
        121 => 334,
        122 => 335,
        123 => 336,
        124 => 337,
        125 => 338,
        126 => 339,
        127 => 340,
        128 => 341,
        129 => 342,
        130 => 343,
        131 => 344,
        132 => 345,
        133 => 346,
        134 => 347,
        135 => 348,
        136 => 349,
        137 => 350,
        138 => 351,
        139 => 352,
        140 => 353,
        141 => 354,
        142 => 355,
        143 => 356,
        144 => 357,
        145 => 358,
        146 => 359,
        147 => 360,
        148 => 361,
        149 => 362,
        150 => 363,
        151 => 364,
        152 => 365,
        153 => 366,
        154 => 367,
        155 => 368,
        156 => 369,
        157 => 370,
        158 => 371,
        159 => 372,
        160 => 373,
        161 => 374,
        162 => 375,
        163 => 376,
        164 => 377,
        165 => 378,
        _ => 0,
    }
}

/// Return the string identifier of the glyph in the expert char set.
pub fn get_expert_char_set(glyph: GlyphID) -> (sid: StringID)
    ensures
        sid == expert_char_set(glyph),
{
    match glyph {
        1 => 1,
        2 => 229,
        3 => 230,
        4 => 231,
        5 => 232,
        6 => 233,
        7 => 234,
        8 => 235,
        9 => 236,
        10 => 237,
        11 => 238,
        12 => 13,
        13 => 14,
        14 => 15,
        15 => 99,
        16 => 239,
        17 => 240,
        18 => 241,
        19 => 242,
        20 => 243,
        21 => 244,
        22 => 245,
        23 => 246,
        24 => 247,
        25 => 248,
        26 => 27,
        27 => 28,
        28 => 249,
        29 => 250,
        30 => 251,
        31 => 252,
        32 => 253,
        33 => 254,
        34 => 255,
        35 => 256,
        36 => 257,
        37 => 258,
        38 => 259,
        39 => 260,
        40 => 261,
        41 => 262,
        42 => 263,
        43 => 264,
        44 => 265,
        45 => 266,
        46 => 109,
        47 => 110,
        48 => 267,
        49 => 268,
        50 => 269,
        51 => 270,
        52 => 271,
        53 => 272,
        54 => 273,
        55 => 274,
        56 => 275,
        57 => 276,
        58 => 277,
        59 => 278,
        60 => 279,
        61 => 280,
        62 => 281,
        63 => 282,
        64 => 283,
        65 => 284,
        66 => 285,
        67 => 286,
        68 => 287,
        69 => 288,
        70 => 289,
        71 => 290,
        72 => 291,
        73 => 292,
        74 => 293,
        75 => 294,
        76 => 295,
        77 => 296,
        78 => 297,
        79 => 298,
        80 => 299,
        81 => 300,
        82 => 301,
        83 => 302,
        84 => 303,
        85 => 304,
        86 => 305,
        87 => 306,
        88 => 307,
        89 => 308,
        90 => 309,
        91 => 310,
        92 => 311,
        93 => 312,
        94 => 313,
        95 => 314,
        96 => 315,
        97 => 316,
        98 => 317,
        99 => 318,
        100 => 158,
        101 => 155,
        102 => 163,
        103 => 319,
        104 => 320,
        105 => 321,
        106 => 322,
        107 => 323,
        108 => 324,
        109 => 325,
        110 => 326,
        111 => 150,
        112 => 164,
        113 => 169,
        114 => 327,
        115 => 328,
        116 => 329,
        117 => 330,
        118 => 331,
        119 => 332,
        120 => 333,
        121 => 334,
        122 => 335,
        123 => 336,
        124 => 337,
        125 => 338,
        126 => 339,
        127 => 340,
        128 => 341,
        129 => 342,
        130 => 343,
        131 => 344,
        132 => 345,
        133 => 346,
        134 => 347,
        135 => 348,
        136 => 349,
        137 => 350,
        138 => 351,
        139 => 352,
        140 => 353,
        141 => 354,
        142 => 355,
        143 => 356,
        144 => 357,
        145 => 358,
        146 => 359,
        147 => 360,
        148 => 361,
        149 => 362,
        150 => 363,
        151 => 364,
        152 => 365,
        153 => 366,
        154 => 367,
        155 => 368,
        156 => 369,
        157 => 370,
        158 => 371,
        159 => 372,
        160 => 373,
        161 => 374,
        162 => 375,
        163 => 376,
        164 => 377,
        165 => 378,
        _ => 0,
    }
}

/// The string identifier of the glyph in the expert-subset char set; zero
/// beyond its glyphs.
pub open spec fn expert_subset_char_set(glyph: GlyphID) -> StringID {
    match glyph {
        1 => 1,
        2 => 231,
        3 => 232,
        4 => 235,
        5 => 236,
        6 => 237,
        7 => 238,
        8 => 13,
        9 => 14,
        10 => 15,
        11 => 99,
        12 => 239,
        13 => 240,
        14 => 241,
        15 => 242,
        16 => 243,
        17 => 244,
        18 => 245,
        19 => 246,
        20 => 247,
        21 => 248,
        22 => 27,
        23 => 28,
        24 => 249,
        25 => 250,
        26 => 251,
        27 => 253,
        28 => 254,
        29 => 255,
        30 => 256,
        31 => 257,
        32 => 258,
        33 => 259,
        34 => 260,
        35 => 261,
        36 => 262,
        37 => 263,
        38 => 264,
        39 => 265,
        40 => 266,
        41 => 109,
        42 => 110,
        43 => 267,
        44 => 268,
        45 => 269,
        46 => 270,
        47 => 272,
        48 => 300,
        49 => 301,
        50 => 302,
        51 => 305,
        52 => 314,
        53 => 315,
        54 => 158,
        55 => 155,
        56 => 163,
        57 => 320,
        58 => 321,
        59 => 322,
        60 => 323,
        61 => 324,
        62 => 325,
        63 => 326,
        64 => 150,
        65 => 164,
        66 => 169,
        67 => 327,
        68 => 328,
        69 => 329,
        70 => 330,
        71 => 331,
        72 => 332,
        73 => 333,
        74 => 334,
        75 => 335,
        76 => 336,
        77 => 337,
        78 => 338,
        79 => 339,
        80 => 340,
        81 => 341,
        82 => 342,
        83 => 343,
        84 => 344,
        85 => 345,
        86 => 346,
        _ => 0,
    }
}

/// Return the string identifier of the glyph in the expert-subset char set.
pub fn get_expert_subset_char_set(glyph: GlyphID) -> (sid: StringID)
    ensures
        sid == expert_subset_char_set(glyph),
{
    match glyph {
        1 => 1,
        2 => 231,
        3 => 232,
        4 => 235,
        5 => 236,
        6 => 237,
        7 => 238,
        8 => 13,
        9 => 14,
        10 => 15,
        11 => 99,
        12 => 239,
        13 => 240,
        14 => 241,
        15 => 242,
        16 => 243,
        17 => 244,
        18 => 245,
        19 => 246,
        20 => 247,
        21 => 248,
        22 => 27,
        23 => 28,
        24 => 249,
        25 => 250,
        26 => 251,
        27 => 253,
        28 => 254,
        29 => 255,
        30 => 256,
        31 => 257,
        32 => 258,
        33 => 259,
        34 => 260,
        35 => 261,
        36 => 262,
        37 => 263,
        38 => 264,
        39 => 265,
        40 => 266,
        41 => 109,
        42 => 110,
        43 => 267,
        44 => 268,
        45 => 269,
        46 => 270,
        47 => 272,
        48 => 300,
        49 => 301,
        50 => 302,
        51 => 305,
        52 => 314,
        53 => 315,
        54 => 158,
        55 => 155,
        56 => 163,
        57 => 320,
        58 => 321,
        59 => 322,
        60 => 323,
        61 => 324,
        62 => 325,
        63 => 326,
        64 => 150,
        65 => 164,
        66 => 169,
        67 => 327,
        68 => 328,
        69 => 329,
        70 => 330,
        71 => 331,
        72 => 332,
        73 => 333,
        74 => 334,
        75 => 335,
        76 => 336,
        77 => 337,
        78 => 338,
        79 => 339,
        80 => 340,
        81 => 341,
        82 => 342,
        83 => 343,
        84 => 344,
        85 => 345,
        86 => 346,
        _ => 0,
    }
}

} // verus!
