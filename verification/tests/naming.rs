use schema_codegen::naming::{input_row_struct_name, row_struct_name, to_type_name};

/// Capitalizes by the rule that the library states for names in lower-case
/// letters, digits and underscores.
fn capitalized(name: &str) -> String {
    let mut out = String::new();
    let mut word_start = true;
    for c in name.chars() {
        if c == '_' {
            word_start = true;
        } else if c.is_ascii_digit() {
            out.push(c);
            word_start = true;
        } else {
            out.push(if word_start { c.to_ascii_uppercase() } else { c });
            word_start = false;
        }
    }
    out
}

fn all_names(alphabet: &[char], max_len: usize) -> Vec<String> {
    let mut names = vec![String::new()];
    let mut last = vec![String::new()];
    for _ in 0..max_len {
        let mut next = Vec::new();
        for name in &last {
            for c in alphabet {
                let mut longer = name.clone();
                longer.push(*c);
                next.push(longer);
            }
        }
        names.extend(next.iter().cloned());
        last = next;
    }
    names
}

#[test]
fn order_items_becomes_order_items_type() {
    assert_eq!(to_type_name("order_items"), "OrderItems");
}

#[test]
fn user_accounts_becomes_user_accounts_type() {
    assert_eq!(to_type_name("user_accounts"), "UserAccounts");
}

#[test]
fn single_word_is_capitalized() {
    assert_eq!(to_type_name("users"), "Users");
}

#[test]
fn plural_names_are_kept_plural() {
    assert_eq!(to_type_name("categories"), "Categories");
    assert_eq!(to_type_name("boxes"), "Boxes");
}

#[test]
fn leading_and_doubled_underscores_are_dropped() {
    assert_eq!(to_type_name("_sqlx_migrations"), "SqlxMigrations");
    assert_eq!(to_type_name("a__b_"), "AB");
    assert_eq!(to_type_name(""), "");
    assert_eq!(to_type_name("___"), "");
}

#[test]
fn digit_ends_a_word() {
    assert_eq!(to_type_name("table_2"), "Table2");
    assert_eq!(to_type_name("a1b"), "A1B");
    assert_eq!(to_type_name("2fa_codes"), "2FaCodes");
}

#[test]
fn transformation_is_deterministic() {
    for name in ["order_items", "users", "a_b_c", "x9_y"] {
        assert_eq!(to_type_name(name), to_type_name(name));
    }
}

#[test]
fn every_short_snake_case_name_is_capitalized_by_words() {
    for name in all_names(&['a', 'z', 'm', '_', '0', '7'], 5) {
        assert_eq!(to_type_name(&name), capitalized(&name), "for {:?}", name);
    }
}

#[test]
fn every_letter_is_capitalized_at_a_word_start() {
    for c in 'a'..='z' {
        let name = format!("{}x_{}y", c, c);
        let upper = c.to_ascii_uppercase();
        assert_eq!(to_type_name(&name), format!("{}x{}y", upper, upper));
    }
}

#[test]
fn row_struct_name_appends_row() {
    assert_eq!(row_struct_name("order_items"), "OrderItemsRow");
    assert_eq!(row_struct_name("users"), "UsersRow");
}

#[test]
fn input_row_struct_name_appends_input_row() {
    assert_eq!(input_row_struct_name("order_items"), "OrderItemsInputRow");
    assert_eq!(input_row_struct_name("users"), "UsersInputRow");
}
