pub mod privileges;
