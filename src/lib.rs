//! Validation of real-estate developments against composable business rules.

pub mod cidades;
pub mod construtoras;
pub mod empreendimento;
pub mod factory;
pub mod field_converter;
pub mod file_type;
pub mod ignoradas;
pub mod leis;
pub mod medida;
pub mod padrao;
pub mod regras;
pub mod texto;
pub mod validator;

pub use cidades::{RegraAlturaPorTorresGuaratingueta, RegraMaxTorres};
pub use construtoras::RegraAreaLazerAlpha;
pub use empreendimento::Empreendimento;
pub use factory::{Regra, RegrasFactory};
pub use field_converter::normalize_field_name;
pub use file_type::FileType;
pub use ignoradas::{regras_ignoradas, regras_ignoradas_por_cidade};
pub use medida::Medida;
pub use padrao::{RegraAlturaMax, RegraAreaLazerMin, RegraAreaTorresMax};
pub use regras::RegraNegocio;
pub use validator::{validar_com_ignoradas, validar_empreendimento, validar_empreendimentos, ValidationResult};
