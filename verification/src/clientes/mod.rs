pub mod comensal;
pub mod descubrimiento;
pub mod repartidor;
pub mod restaurante;
