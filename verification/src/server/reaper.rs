use crate::almacenamiento::almacenamiento::{Almacenamiento, VistaAlmacenamiento};
use crate::almacenamiento::mensajes_almacenamiento::{
    BorrarRepartidoresAusentes, RepartidorAusente,
};
use crate::coordinador::mensajes_coordinador::{
    Accion, ActualizarComensales, ActualizarRepartidores,
};
use crate::direccion::{Coordenadas, Direccion};
use crate::server::efectos::{Delta, Efecto, Linea, MotivoRechazo};
use crate::server::server::{baja_comensal, baja_repartidor};
use crate::utils::entidades::{EstadoRepartidor, Instante};
use vstd::prelude::*;

verus! {

/// What is done for one reaped courier: the followers are told to forget
/// it and the diner it held up, and the diner is told to try again.
pub open spec fn efectos_de_ausente(a: RepartidorAusente) -> Seq<Efecto> {
    seq![Efecto::Difundir(baja_repartidor(a.id_repartidor))] + (match a.id_comensal {
        Some(c) => seq![Efecto::Difundir(baja_comensal(c))],
        None => Seq::<Efecto>::empty(),
    }) + (match a.enviador_comensal {
        Some(e) => seq![
            Efecto::Enviar(e, Linea::RechazarViaje(MotivoRechazo::RepartidorDesconectado)),
        ],
        None => Seq::<Efecto>::empty(),
    })
}

/// What is done for a list of reaped couriers, one after the other.
pub open spec fn efectos_de_ausentes(s: Seq<RepartidorAusente>) -> Seq<Efecto>
    decreases s.len(),
{
    if s.len() == 0 {
        Seq::<Efecto>::empty()
    } else {
        efectos_de_ausentes(s.drop_last()) + efectos_de_ausente(s.last())
    }
}

/// Whatever is done for one of the couriers is part of what is done for all.
pub proof fn lema_efectos_de_ausentes(s: Seq<RepartidorAusente>, i: int, e: Efecto)
    requires
        0 <= i < s.len(),
        efectos_de_ausente(s[i]).contains(e),
    ensures
        efectos_de_ausentes(s).contains(e),
    decreases s.len(),
{
    let resto = efectos_de_ausentes(s.drop_last());
    let ultimo = efectos_de_ausente(s.last());
    if i == s.len() - 1 {
        let k = choose|k: int| 0 <= k < ultimo.len() && ultimo[k] == e;
        assert((resto + ultimo)[resto.len() + k] == e);
    } else {
        lema_efectos_de_ausentes(s.drop_last(), i, e);
        let k = choose|k: int| 0 <= k < resto.len() && resto[k] == e;
        assert((resto + ultimo)[k] == e);
    }
}

/// Removes the couriers that have been waiting for more than three seconds
/// and the diners they held up, tells the followers, and tells every such
/// diner that can be written to that its order is refused.
pub fn matar_repartidores_ausentes(almacenamiento: &mut Almacenamiento, ahora: Instante) -> (r: Vec<
    Efecto,
>)
    ensures
        final(almacenamiento)@.bien_formada(),
        final(almacenamiento)@ == old(almacenamiento)@.borrar_repartidores_ausentes(ahora),
        exists|informes: Seq<RepartidorAusente>| #[trigger]
            old(almacenamiento)@.informa(ahora, informes) && r@ == efectos_de_ausentes(
                informes,
            ),
        forall|d: Direccion| #[trigger]
            old(almacenamiento)@.ausentes(ahora).contains(d) && old(
                almacenamiento,
            )@.informe_de_ausente(d).enviador_comensal is Some ==> r@.contains(
                Efecto::Enviar(
                    old(almacenamiento)@.informe_de_ausente(d).enviador_comensal->0,
                    Linea::RechazarViaje(MotivoRechazo::RepartidorDesconectado),
                ),
            ),
{
    let muertos = almacenamiento.borrar_repartidores_ausentes(BorrarRepartidoresAusentes, ahora);
    let mut efectos: Vec<Efecto> = Vec::new();
    let mut i: usize = 0;
    while i < muertos.len()
        invariant
            i <= muertos.len(),
            efectos@ == efectos_de_ausentes(muertos@.take(i as int)),
        decreases muertos.len() - i,
    {
        let a = muertos[i];
        let ghost antes = efectos@;
        efectos.push(
            Efecto::Difundir(
                Delta::Repartidores(
                    ActualizarRepartidores {
                        accion: Accion::Eliminar,
                        repartidor: a.id_repartidor,
                        posicion: Coordenadas { x: 0, y: 0 },
                        id_comensal_actual: None,
                        status: EstadoRepartidor::Active,
                    },
                ),
            ),
        );
        if let Some(c) = a.id_comensal {
            efectos.push(
                Efecto::Difundir(
                    Delta::Comensales(
                        ActualizarComensales {
                            accion: Accion::Eliminar,
                            comensal: c,
                            origen: Coordenadas { x: 0, y: 0 },
                            destino: Coordenadas { x: 0, y: 0 },
                        },
                    ),
                ),
            );
        }
        if let Some(e) = a.enviador_comensal {
            efectos.push(
                Efecto::Enviar(e, Linea::RechazarViaje(MotivoRechazo::RepartidorDesconectado)),
            );
        }
        proof {
            let t = muertos@.take(i + 1);
            assert(t.drop_last() =~= muertos@.take(i as int));
            assert(t.last() == a);
            assert(efectos@ =~= antes + efectos_de_ausente(a));
        }
        i = i + 1;
    }
    proof {
        assert(muertos@.take(i as int) =~= muertos@);
        let v = old(almacenamiento)@;
        assert(v.informa(ahora, muertos@));
        assert forall|d: Direccion| #[trigger]
            v.ausentes(ahora).contains(d) && v.informe_de_ausente(d).enviador_comensal
                is Some implies efectos@.contains(
            Efecto::Enviar(
                v.informe_de_ausente(d).enviador_comensal->0,
                Linea::RechazarViaje(MotivoRechazo::RepartidorDesconectado),
            ),
        ) by {
            let j = choose|j: int| 0 <= j < muertos.len() && muertos[j].id_repartidor == d;
            let e = Efecto::Enviar(
                v.informe_de_ausente(d).enviador_comensal->0,
                Linea::RechazarViaje(MotivoRechazo::RepartidorDesconectado),
            );
            let uno = efectos_de_ausente(muertos@[j]);
            assert(uno[uno.len() - 1] == e);
            lema_efectos_de_ausentes(muertos@, j, e);
        }
    }
    efectos
}

} // verus!
