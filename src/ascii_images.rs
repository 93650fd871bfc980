//! The pictures shown beside the timers: a computer while working, a cat
//! asleep beside it during a break.
use vstd::prelude::*;

verus! {

/// The lines of the work picture.
pub open spec fn computer_art() -> Seq<Seq<char>> {
    seq![
        r#"                                         .----."#@,
        r#"                             .---------. | == |"#@,
        r#"                             |.-'''''-.| |----|"#@,
        r#"                             ||       || | == |"#@,
        r#"                             ||       || |----|"#@,
        r#"                             |'-.....-'| |::::|"#@,
        r#" _._     _,-'""`-._          `'')---(''` |___.|"#@,
        r#"(,-.`._,'(       |\`-/|     /:::::::::::\' _  '"#@,
        r#"    `-.-' \ )-`( , o o)    /:::=======:::\`\`\ "#@,
        r#"          `-    \`_`"'-    `''''''''''''''` '-'"#@,
    ]
}

/// The lines of the break picture.
pub open spec fn sleeping_cat_art() -> Seq<Seq<char>> {
    seq![
        r#"                                    .----.     "#@,
        r#"                        .---------. | == |     "#@,
        r#"                        |.-'''''-.| |----|     "#@,
        r#"                        ||       || | == |     "#@,
        r#"               ZZZ      ||       || |----|     "#@,
        r#"                 ZZ     |'-.....-'| |::::|     "#@,
        r#"                   z  |\      _,,,---,,_       "#@,
        r#"                    z /,`.-'`'    -.  ;-;;,_   "#@,
        r#"                     |,4-  ) )-,_. ,\ (        "#@,
        r#"                    '---''(_/--'  `-'\_)       "#@,
    ]
}

/// The work picture, one string per line.
pub fn computer() -> (r: Vec<String>)
    ensures
        r@.len() == computer_art().len(),
        forall|i: int| 0 <= i < r@.len() ==> #[trigger] r@[i]@ == computer_art()[i],
{
    let mut v: Vec<String> = Vec::new();
    v.push(String::from_str(r#"                                         .----."#));
    v.push(String::from_str(r#"                             .---------. | == |"#));
    v.push(String::from_str(r#"                             |.-'''''-.| |----|"#));
    v.push(String::from_str(r#"                             ||       || | == |"#));
    v.push(String::from_str(r#"                             ||       || |----|"#));
    v.push(String::from_str(r#"                             |'-.....-'| |::::|"#));
    v.push(String::from_str(r#" _._     _,-'""`-._          `'')---(''` |___.|"#));
    v.push(String::from_str(r#"(,-.`._,'(       |\`-/|     /:::::::::::\' _  '"#));
    v.push(String::from_str(r#"    `-.-' \ )-`( , o o)    /:::=======:::\`\`\ "#));
    v.push(String::from_str(r#"          `-    \`_`"'-    `''''''''''''''` '-'"#));
    assert(v@.len() == computer_art().len());
    v
}

/// The break picture, one string per line.
pub fn sleeping_cat() -> (r: Vec<String>)
    ensures
        r@.len() == sleeping_cat_art().len(),
        forall|i: int| 0 <= i < r@.len() ==> #[trigger] r@[i]@ == sleeping_cat_art()[i],
{
    let mut v: Vec<String> = Vec::new();
    v.push(String::from_str(r#"                                    .----.     "#));
    v.push(String::from_str(r#"                        .---------. | == |     "#));
    v.push(String::from_str(r#"                        |.-'''''-.| |----|     "#));
    v.push(String::from_str(r#"                        ||       || | == |     "#));
    v.push(String::from_str(r#"               ZZZ      ||       || |----|     "#));
    v.push(String::from_str(r#"                 ZZ     |'-.....-'| |::::|     "#));
    v.push(String::from_str(r#"                   z  |\      _,,,---,,_       "#));
    v.push(String::from_str(r#"                    z /,`.-'`'    -.  ;-;;,_   "#));
    v.push(String::from_str(r#"                     |,4-  ) )-,_. ,\ (        "#));
    v.push(String::from_str(r#"                    '---''(_/--'  `-'\_)       "#));
    assert(v@.len() == sleeping_cat_art().len());
    v
}

} // verus!
