use vstd::prelude::*;

verus! {

/// A stop of the catalogue. Each coordinate is absent or held as the bit
/// pattern of the IEEE-754 double the catalogue gave, so that an absent
/// coordinate is never mistaken for zero and the library never computes with
/// one.
#[derive(Debug)]
pub struct Stop {
    pub parada: usize,
    pub nombre: String,
    pub nom_web: String,
    pub peso: isize,
    pub lat: Option<u64>,
    pub lon: Option<u64>,
    pub latitud: Option<u64>,
    pub longitud: Option<u64>,
}

impl Stop {
    pub fn new(
        parada: usize,
        nombre: String,
        nom_web: String,
        peso: isize,
        lat: Option<u64>,
        lon: Option<u64>,
        latitud: Option<u64>,
        longitud: Option<u64>,
    ) -> (r: Self)
        ensures
            r == (Stop { parada, nombre, nom_web, peso, lat, lon, latitud, longitud }),
    {
        Stop { parada, nombre, nom_web, peso, lat, lon, latitud, longitud }
    }

    /// The stop's catalogue identifier.
    pub fn get_parada(&self) -> (r: usize)
        ensures
            r == self.parada,
    {
        self.parada
    }

    /// The stop's full name.
    pub fn get_nombre(&self) -> (r: String)
        ensures
            r == self.nombre,
    {
        self.nombre.clone()
    }
}

impl Clone for Stop {
    fn clone(&self) -> (r: Self)
        ensures
            r == *self,
    {
        Stop {
            parada: self.parada,
            nombre: self.nombre.clone(),
            nom_web: self.nom_web.clone(),
            peso: self.peso,
            lat: self.lat,
            lon: self.lon,
            latitud: self.latitud,
            longitud: self.longitud,
        }
    }
}

impl PartialEq for Stop {
    fn eq(&self, o: &Stop) -> (r: bool) {
        self.parada == o.parada && self.nombre == o.nombre && self.nom_web == o.nom_web
            && self.peso == o.peso && self.lat == o.lat && self.lon == o.lon
            && self.latitud == o.latitud && self.longitud == o.longitud
    }
}

impl vstd::std_specs::cmp::PartialEqSpecImpl for Stop {
    open spec fn obeys_eq_spec() -> bool {
        true
    }

    open spec fn eq_spec(&self, o: &Stop) -> bool {
        self.parada == o.parada && self.nombre@ == o.nombre@ && self.nom_web@ == o.nom_web@
            && self.peso == o.peso && self.lat == o.lat && self.lon == o.lon
            && self.latitud == o.latitud && self.longitud == o.longitud
    }
}

} // verus!
