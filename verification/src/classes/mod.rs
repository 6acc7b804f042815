mod attr_class;
pub mod attr_list;
mod base_class;
mod duo_class;
mod el_class;
mod option_class;

pub use self::attr_class::lemma_modifiers_push;
pub use self::attr_class::lemma_modifiers_split;
pub use self::attr_class::modifier;
pub use self::attr_class::modifiers;
pub use self::attr_class::AttrClass;
pub use self::base_class::BaseClass;
pub use self::duo_class::lemma_join_accumulates_left;
pub use self::duo_class::lemma_join_text_is_associative;
pub use self::duo_class::DuoClass;
pub use self::el_class::ElClass;
pub use self::option_class::optional_text;
pub use self::option_class::OptionClass;
